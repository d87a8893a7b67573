use crate::assets::{load_result, AssetCache};
use crate::names::NameMap;
use vstd::prelude::*;

verus! {

/// The loudest volume, in thousandths.
pub const FULL_VOLUME: u16 = 1000;

/// Textures by name.
pub struct SpriteManager<T> {
    pub textures: AssetCache<T>,
}

impl<T> SpriteManager<T> {
    pub open spec fn wf(&self) -> bool {
        self.textures.wf()
    }

    pub fn new() -> (r: Self)
        ensures
            r.wf(),
            r.textures@ == Map::<Seq<char>, T>::empty(),
    {
        SpriteManager { textures: AssetCache::new() }
    }

    /// Loads the texture `name` once, from what `read` produces; see
    /// [`AssetCache::load_with`].
    pub fn load_texture<E, F: FnOnce() -> Result<T, E>>(&mut self, name: &str, read: F) -> (r: Result<bool, E>)
        requires
            old(self).wf(),
            !old(self).textures@.contains_key(name@) ==> read.requires(()),
        ensures
            final(self).wf(),
            load_result(old(self).textures@, name@, r, final(self).textures@),
            r == Ok::<bool, E>(true) ==> read.ensures((), Ok::<T, E>(final(self).textures@[name@])),
            r is Err ==> read.ensures((), Err::<T, E>(r->Err_0)),
    {
        self.textures.load_with(name, read)
    }

    pub fn get_texture(&self, name: &str) -> (r: Option<&T>)
        requires
            self.wf(),
        ensures
            r is Some == self.textures@.contains_key(name@),
            r is Some ==> *r->Some_0 == self.textures@[name@],
    {
        self.textures.get(name)
    }
}

/// What to play: the sound's bytes, to be decoded afresh, and how.
#[derive(Clone, Debug, PartialEq, Eq)]
pub struct PlayRequest {
    pub data: Vec<u8>,
    pub looped: bool,
    /// In thousandths of full volume.
    pub volume: u16,
    /// Whether the playback handle is kept under the sound's name, so that a
    /// later play of that name replaces it; an untracked handle is let go and
    /// ends with its sound.
    pub keep_handle: bool,
}

/// The request for playing `bytes`: a looped sound is tracked, a one-shot one
/// is not.
pub open spec fn play_request(bytes: Seq<u8>, looped: bool, volume: u16, r: PlayRequest) -> bool {
    &&& r.data@ == bytes
    &&& r.looped == looped
    &&& r.volume == volume
    &&& r.keep_handle == looped
}

/// Raw sound bytes by name, kept undecoded, and the playback handles kept for
/// looped sounds, by name.
pub struct SoundManager<S> {
    pub sounds: AssetCache<Vec<u8>>,
    pub sinks: NameMap<S>,
}

impl<S> SoundManager<S> {
    pub open spec fn wf(&self) -> bool {
        self.sounds.wf() && self.sinks.wf()
    }

    pub fn new() -> (r: Self)
        ensures
            r.wf(),
            r.sounds@ == Map::<Seq<char>, Vec<u8>>::empty(),
            r.sinks@ == Map::<Seq<char>, S>::empty(),
    {
        SoundManager { sounds: AssetCache::new(), sinks: NameMap::new() }
    }

    /// Loads the sound `name` once, from the bytes that `read` produces; see
    /// [`AssetCache::load_with`].
    pub fn load_sound<E, F: FnOnce() -> Result<Vec<u8>, E>>(&mut self, name: &str, read: F) -> (r: Result<bool, E>)
        requires
            old(self).wf(),
            !old(self).sounds@.contains_key(name@) ==> read.requires(()),
        ensures
            final(self).wf(),
            final(self).sinks@ == old(self).sinks@,
            load_result(old(self).sounds@, name@, r, final(self).sounds@),
            r == Ok::<bool, E>(true) ==> read.ensures((), Ok::<Vec<u8>, E>(final(self).sounds@[name@])),
            r is Err ==> read.ensures((), Err::<Vec<u8>, E>(r->Err_0)),
    {
        self.sounds.load_with(name, read)
    }

    pub fn get_sound(&self, name: &str) -> (r: Option<&Vec<u8>>)
        requires
            self.wf(),
        ensures
            r is Some == self.sounds@.contains_key(name@),
            r is Some ==> *r->Some_0 == self.sounds@[name@],
    {
        self.sounds.get(name)
    }

    /// How to play the sound `name` at `volume` thousandths, once or looped;
    /// `None` when no sound of that name was loaded. Nothing is changed either
    /// way: the handle of a tracked playback is kept by [`Self::keep_sink`].
    pub fn play_sound(&self, name: &str, looped: bool, volume: u16) -> (r: Option<PlayRequest>)
        requires
            self.wf(),
            volume <= FULL_VOLUME,
        ensures
            r is Some == self.sounds@.contains_key(name@),
            r is Some ==> play_request(self.sounds@[name@]@, looped, volume, r->Some_0),
    {
        match self.sounds.get(name) {
            Some(bytes) => {
                let data = bytes.clone();
                assert(data@ =~= bytes@);
                Some(PlayRequest { data, looped, volume, keep_handle: looped })
            },
            None => None,
        }
    }

    /// The hit effect: the sound "Hit", once, at full volume.
    pub fn play_hit_sound(&self) -> (r: Option<PlayRequest>)
        requires
            self.wf(),
        ensures
            r is Some == self.sounds@.contains_key("Hit"@),
            r is Some ==> play_request(self.sounds@["Hit"@]@, false, FULL_VOLUME, r->Some_0),
    {
        self.play_sound("Hit", false, FULL_VOLUME)
    }

    /// Keeps the handle of a tracked playback under `name`, and hands back
    /// the handle it replaces, which the caller stops.
    pub fn keep_sink(&mut self, name: &str, sink: S) -> (r: Option<S>)
        requires
            old(self).wf(),
        ensures
            final(self).wf(),
            final(self).sounds@ == old(self).sounds@,
            final(self).sinks@ == old(self).sinks@.insert(name@, sink),
            r is Some == old(self).sinks@.contains_key(name@),
            r is Some ==> r->Some_0 == old(self).sinks@[name@],
    {
        self.sinks.insert(name, sink)
    }
}

/// Every kind of asset of the demo, each kind under names of its own.
pub struct ResourceManager<T, F, S> {
    pub sprites: SpriteManager<T>,
    pub audio: SoundManager<S>,
    pub fonts: AssetCache<F>,
}

impl<T, F, S> ResourceManager<T, F, S> {
    pub open spec fn wf(&self) -> bool {
        self.sprites.wf() && self.audio.wf() && self.fonts.wf()
    }

    pub fn new() -> (r: Self)
        ensures
            r.wf(),
            r.sprites.textures@ == Map::<Seq<char>, T>::empty(),
            r.audio.sounds@ == Map::<Seq<char>, Vec<u8>>::empty(),
            r.audio.sinks@ == Map::<Seq<char>, S>::empty(),
            r.fonts@ == Map::<Seq<char>, F>::empty(),
    {
        ResourceManager { sprites: SpriteManager::new(), audio: SoundManager::new(), fonts: AssetCache::new() }
    }

    /// Loads the texture `name` once; the sounds and fonts are untouched.
    pub fn load_texture<E, G: FnOnce() -> Result<T, E>>(&mut self, name: &str, read: G) -> (r: Result<bool, E>)
        requires
            old(self).wf(),
            !old(self).sprites.textures@.contains_key(name@) ==> read.requires(()),
        ensures
            final(self).wf(),
            final(self).audio == old(self).audio,
            final(self).fonts == old(self).fonts,
            load_result(old(self).sprites.textures@, name@, r, final(self).sprites.textures@),
            r == Ok::<bool, E>(true) ==> read.ensures((), Ok::<T, E>(final(self).sprites.textures@[name@])),
            r is Err ==> read.ensures((), Err::<T, E>(r->Err_0)),
    {
        self.sprites.load_texture(name, read)
    }

    /// Loads the sound `name` once; the textures and fonts are untouched.
    pub fn load_sound<E, G: FnOnce() -> Result<Vec<u8>, E>>(&mut self, name: &str, read: G) -> (r: Result<bool, E>)
        requires
            old(self).wf(),
            !old(self).audio.sounds@.contains_key(name@) ==> read.requires(()),
        ensures
            final(self).wf(),
            final(self).sprites == old(self).sprites,
            final(self).fonts == old(self).fonts,
            final(self).audio.sinks@ == old(self).audio.sinks@,
            load_result(old(self).audio.sounds@, name@, r, final(self).audio.sounds@),
            r == Ok::<bool, E>(true) ==> read.ensures((), Ok::<Vec<u8>, E>(final(self).audio.sounds@[name@])),
            r is Err ==> read.ensures((), Err::<Vec<u8>, E>(r->Err_0)),
    {
        self.audio.load_sound(name, read)
    }

    /// Loads the font `name` once; the textures and sounds are untouched.
    pub fn load_font<E, G: FnOnce() -> Result<F, E>>(&mut self, name: &str, read: G) -> (r: Result<bool, E>)
        requires
            old(self).wf(),
            !old(self).fonts@.contains_key(name@) ==> read.requires(()),
        ensures
            final(self).wf(),
            final(self).sprites == old(self).sprites,
            final(self).audio == old(self).audio,
            load_result(old(self).fonts@, name@, r, final(self).fonts@),
            r == Ok::<bool, E>(true) ==> read.ensures((), Ok::<F, E>(final(self).fonts@[name@])),
            r is Err ==> read.ensures((), Err::<F, E>(r->Err_0)),
    {
        self.fonts.load_with(name, read)
    }

    pub fn get_texture(&self, name: &str) -> (r: Option<&T>)
        requires
            self.wf(),
        ensures
            r is Some == self.sprites.textures@.contains_key(name@),
            r is Some ==> *r->Some_0 == self.sprites.textures@[name@],
    {
        self.sprites.get_texture(name)
    }

    pub fn get_sound(&self, name: &str) -> (r: Option<&Vec<u8>>)
        requires
            self.wf(),
        ensures
            r is Some == self.audio.sounds@.contains_key(name@),
            r is Some ==> *r->Some_0 == self.audio.sounds@[name@],
    {
        self.audio.get_sound(name)
    }

    /// See [`SoundManager::play_sound`].
    pub fn play_sound(&self, name: &str, looped: bool, volume: u16) -> (r: Option<PlayRequest>)
        requires
            self.wf(),
            volume <= FULL_VOLUME,
        ensures
            r is Some == self.audio.sounds@.contains_key(name@),
            r is Some ==> play_request(self.audio.sounds@[name@]@, looped, volume, r->Some_0),
    {
        self.audio.play_sound(name, looped, volume)
    }

    /// See [`SoundManager::play_hit_sound`].
    pub fn play_hit_sound(&self) -> (r: Option<PlayRequest>)
        requires
            self.wf(),
        ensures
            r is Some == self.audio.sounds@.contains_key("Hit"@),
            r is Some ==> play_request(self.audio.sounds@["Hit"@]@, false, FULL_VOLUME, r->Some_0),
    {
        self.audio.play_hit_sound()
    }
}

} // verus!
