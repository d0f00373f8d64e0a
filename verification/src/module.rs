//! The module's side of the boundary: the one application a module keeps
//! between the calls that the host makes into it, and the setup callback that
//! was registered for it.
//!
//! The module is generic in what an application and a callback are; it only
//! decides, for each entry point, whether there is anything to act on.

use vstd::prelude::*;

verus! {

/// What a module keeps between calls: at most one application and at most one
/// setup callback.
#[derive(Debug)]
pub struct GameModule<A, F> {
    app: Option<A>,
    setup: Option<F>,
}

impl<A, F> GameModule<A, F> {
    /// The application, if one was created and not destroyed since.
    pub closed spec fn app(&self) -> Option<A> {
        self.app
    }

    /// The setup callback, if one was registered.
    pub closed spec fn setup(&self) -> Option<F> {
        self.setup
    }

    /// A module with no application and no callback.
    pub fn new() -> (module: Self)
        ensures
            module.app() is None,
            module.setup() is None,
    {
        GameModule { app: None, setup: None }
    }

    /// Registers the callback that sets a fresh application up, in place of
    /// any that was registered before.
    pub fn register_plugins(&mut self, f: F)
        ensures
            final(self).setup() == Some(f),
            final(self).app() == old(self).app(),
    {
        self.setup = Some(f);
    }

    /// Takes `app` as the module's application, in place of any it had.
    pub fn create_game_app(&mut self, app: A)
        ensures
            final(self).app() == Some(app),
            final(self).setup() == old(self).setup(),
    {
        self.app = Some(app);
    }

    /// The application to set up together with the callback to set it up
    /// with; nothing unless there are both.
    pub fn init_plugins(&mut self) -> (due: Option<(&mut A, &F)>)
        ensures
            due is Some <==> old(self).app() is Some && old(self).setup() is Some,
            match due {
                Some((app, f)) => {
                    &&& old(self).app() == Some(*app)
                    &&& old(self).setup() == Some(*f)
                    &&& final(self).app() == Some(*final(app))
                },
                None => final(self).app() == old(self).app(),
            },
            final(self).setup() == old(self).setup(),
    {
        match (&mut self.app, &self.setup) {
            (Some(app), Some(f)) => Some((app, f)),
            _ => None,
        }
    }

    /// The application to advance by one frame; nothing if there is none.
    pub fn update_app(&mut self) -> (app: Option<&mut A>)
        ensures
            match app {
                Some(app) => old(self).app() == Some(*app) && final(self).app() == Some(
                    *final(app),
                ),
                None => old(self).app() is None && final(self).app() is None,
            },
            final(self).setup() == old(self).setup(),
    {
        match &mut self.app {
            Some(app) => Some(app),
            None => None,
        }
    }

    /// Releases the application; nothing happens if there is none.
    pub fn destroy_app(&mut self)
        ensures
            final(self).app() is None,
            final(self).setup() == old(self).setup(),
    {
        self.app = None;
    }

    /// The application whose address the host asked for; nothing, which
    /// crosses the boundary as null, if there is none.
    pub fn get_app(&mut self) -> (app: Option<&mut A>)
        ensures
            match app {
                Some(app) => old(self).app() == Some(*app) && final(self).app() == Some(
                    *final(app),
                ),
                None => old(self).app() is None && final(self).app() is None,
            },
            final(self).setup() == old(self).setup(),
    {
        match &mut self.app {
            Some(app) => Some(app),
            None => None,
        }
    }
}

} // verus!
