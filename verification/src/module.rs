//! A plugin module and the sources it registers with its host.

use vstd::prelude::*;

verus! {

/// What a module tells its host about itself, and what it does when the host
/// loads it.
pub trait ModuleInfo: Sized {
    const NAME: &'static str;

    const DESCRIPTION: &'static str;

    const AUTHOR: &'static str;

    /// Registers what the module offers. `None` tells the host that loading
    /// failed.
    fn load(registrar: &mut Registrar) -> Option<Self>;

    /// Called once every module has been loaded.
    fn post_load(&mut self) {
    }

    /// Called when the host's language changes.
    fn set_locale(&mut self, _locale: &str) {
    }

    /// Called when the text for a language is no longer needed.
    fn free_locale(&mut self) {
    }
}

/// Collects the identifiers of the sources that a module registers, in the
/// order they are registered.
pub struct Registrar {
    infos: Vec<&'static str>,
}

impl View for Registrar {
    type V = Seq<Seq<char>>;

    closed spec fn view(&self) -> Seq<Seq<char>> {
        self.infos@.map_values(|id: &'static str| id@)
    }
}

impl Registrar {
    /// A registrar that nothing is registered with.
    pub fn new() -> (r: Registrar)
        ensures
            r@ == Seq::<Seq<char>>::empty(),
    {
        let r = Registrar { infos: Vec::new() };
        assert(r@ =~= Seq::<Seq<char>>::empty());
        r
    }

    /// Registers the source with identifier `id` after those registered before.
    pub fn register(&mut self, id: &'static str)
        ensures
            final(self)@ == old(self)@.push(id@),
    {
        self.infos.push(id);
        assert(self@ =~= old(self)@.push(id@));
    }

    /// The identifiers registered so far.
    pub fn infos(&self) -> (ids: &Vec<&'static str>)
        ensures
            ids@.map_values(|id: &'static str| id@) == self@,
    {
        &self.infos
    }
}

/// The module that offers the oscilloscope source.
pub struct DS1054ZModule;

impl ModuleInfo for DS1054ZModule {
    const NAME: &'static str = "ds1054z";

    const DESCRIPTION: &'static str = "live screen grabs form a Rigol DS1054Z oscilloscope";

    const AUTHOR: &'static str = "Aaron Griffith <aargri@gmail.com>";

    /// Registers the oscilloscope source, and nothing else.
    fn load(r: &mut Registrar) -> (m: Option<Self>)
        ensures
            m is Some,
            final(r)@ == old(r)@.push(crate::source::ID@),
    {
        r.register(crate::source::ID);
        Some(DS1054ZModule)
    }
}

} // verus!
