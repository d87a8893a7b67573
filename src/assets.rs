use crate::names::NameMap;
use vstd::prelude::*;

verus! {

/// Why an asset could not be loaded.
#[derive(Clone, Copy, Debug, PartialEq, Eq, Structural)]
pub enum AssetError {
    /// Its source is missing or cannot be read.
    NotOpenable,
    /// Its bytes are not a valid asset of its kind.
    Decode,
}

/// A cache of named assets of one kind. A name, once loaded, keeps its asset:
/// it is never loaded again nor replaced.
pub struct AssetCache<V> {
    entries: NameMap<V>,
}

impl<V> View for AssetCache<V> {
    type V = Map<Seq<char>, V>;

    closed spec fn view(&self) -> Map<Seq<char>, V> {
        self.entries@
    }
}

/// What a load of `name` into a cache holding `m` did, if it returned `r` and
/// left `m2` behind: a cached name gives `Ok(false)` and no change; otherwise
/// `Ok(true)` adds the name and `Err` changes nothing.
pub open spec fn load_result<V, E>(m: Map<Seq<char>, V>, name: Seq<char>, r: Result<bool, E>, m2: Map<Seq<char>, V>) -> bool {
    if m.contains_key(name) {
        r == Ok::<bool, E>(false) && m2 == m
    } else {
        match r {
            Ok(fresh) => fresh && m2.contains_key(name) && m2 == m.insert(name, m2[name]),
            Err(_) => m2 == m,
        }
    }
}

impl<V> AssetCache<V> {
    pub closed spec fn wf(&self) -> bool {
        self.entries.wf()
    }

    pub fn new() -> (r: Self)
        ensures
            r.wf(),
            r@ == Map::<Seq<char>, V>::empty(),
    {
        AssetCache { entries: NameMap::new() }
    }

    pub fn len(&self) -> (r: usize)
        requires
            self.wf(),
        ensures
            r == self@.len(),
    {
        self.entries.len()
    }

    pub fn contains(&self, name: &str) -> (r: bool)
        requires
            self.wf(),
        ensures
            r == self@.contains_key(name@),
    {
        self.entries.contains_key(name)
    }

    /// The asset loaded under `name`; `None` for a name never loaded, which
    /// is no error.
    pub fn get(&self, name: &str) -> (r: Option<&V>)
        requires
            self.wf(),
        ensures
            r is Some == self@.contains_key(name@),
            r is Some ==> *r->Some_0 == self@[name@],
    {
        self.entries.get(name)
    }

    /// Loads `name` once. A cached name returns `Ok(false)` at once, and
    /// `read` is not called: it need not even be callable then. Otherwise `read` produces the asset: on success
    /// it is stored and `Ok(true)` returned; on failure its error is returned
    /// and the cache is left as it was.
    pub fn load_with<E, F: FnOnce() -> Result<V, E>>(&mut self, name: &str, read: F) -> (r: Result<bool, E>)
        requires
            old(self).wf(),
            !old(self)@.contains_key(name@) ==> read.requires(()),
        ensures
            final(self).wf(),
            load_result(old(self)@, name@, r, final(self)@),
            r == Ok::<bool, E>(true) ==> read.ensures((), Ok::<V, E>(final(self)@[name@])),
            r is Err ==> read.ensures((), Err::<V, E>(r->Err_0)),
    {
        if self.entries.contains_key(name) {
            return Ok(false);
        }
        match read() {
            Ok(asset) => {
                let ghost stored = asset;
                let _ = self.entries.insert(name, asset);
                assert(self@[name@] == stored);
                Ok(true)
            },
            Err(e) => Err(e),
        }
    }
}

#[verifier::external_type_specification]
#[verifier::external_body]
pub struct ExImage(macroquad::texture::Image);

#[verifier::external_type_specification]
#[verifier::external_body]
pub struct ExMacroquadError(macroquad::Error);

/// Whether `b` is an image file that macroquad can decode.
pub uninterp spec fn image_decodes(b: Seq<u8>) -> bool;

/// Relies on macroquad::texture::Image::from_file_with_format: given no
/// format, it guesses the format from the bytes and decodes them into RGBA
/// pixels, so whether it succeeds depends on the bytes alone.
#[verifier::external_body]
fn image_from_bytes(bytes: &[u8]) -> (r: Result<macroquad::texture::Image, macroquad::Error>)
    ensures
        r is Ok == image_decodes(bytes@),
{
    macroquad::texture::Image::from_file_with_format(bytes, None)
}

/// Decodes the bytes of an image file into pixels in memory; bytes that are
/// no image give [`AssetError::Decode`].
pub fn decode_image(bytes: &[u8]) -> (r: Result<macroquad::texture::Image, AssetError>)
    ensures
        r is Ok == image_decodes(bytes@),
        r is Err ==> r->Err_0 == AssetError::Decode,
{
    match image_from_bytes(bytes) {
        Ok(image) => Ok(image),
        Err(_) => Err(AssetError::Decode),
    }
}

/// Loading a name that a load has already brought in finds it cached: the
/// second load reports `Ok(false)` and keeps the entry that the first load
/// stored. The source is read at most once, since `load_with` calls its
/// reader only for a name not cached.
pub proof fn lemma_second_load_hits<V, E>(
    m0: Map<Seq<char>, V>,
    name: Seq<char>,
    r1: Result<bool, E>,
    m1: Map<Seq<char>, V>,
    r2: Result<bool, E>,
    m2: Map<Seq<char>, V>,
)
    requires
        load_result(m0, name, r1, m1),
        r1 is Ok,
        load_result(m1, name, r2, m2),
    ensures
        m1.contains_key(name),
        r2 == Ok::<bool, E>(false),
        m2 == m1,
        m2[name] == m1[name],
        m0.contains_key(name) ==> m1 == m0,
{
}

} // verus!
