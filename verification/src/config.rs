use vstd::prelude::*;

verus! {

// ---------------------------------------------------------------------------
// The application configuration consumed by the compiler
// ---------------------------------------------------------------------------

/// The configuration snapshot the compiler reads: the name of the ACME
/// certificate resolver to reference on HTTPS routers. An empty name means no
/// resolver reference is emitted.
pub struct Config {
    pub acme_provider_name: String,
}

impl View for Config {
    type V = Seq<char>;

    open spec fn view(&self) -> Seq<char> {
        self.acme_provider_name@
    }
}

impl Default for Config {
    /// The default configuration names no resolver.
    fn default() -> (c: Self)
        ensures
            c@ == Seq::<char>::empty(),
    {
        Config { acme_provider_name: String::new() }
    }
}

/// Holds the current configuration snapshot; each compile cycle reads it
/// whole at its start.
pub struct ConfigState {
    config: Config,
}

impl View for ConfigState {
    type V = Seq<char>;

    closed spec fn view(&self) -> Seq<char> {
        self.config@
    }
}

impl ConfigState {
    /// Wrap a configuration value.
    pub fn new(config: Config) -> (s: Self)
        ensures
            s@ == config@,
    {
        ConfigState { config }
    }

    /// The current configuration snapshot.
    pub fn config(&self) -> (c: Config)
        ensures
            c@ == self@,
    {
        Config { acme_provider_name: self.config.acme_provider_name.clone() }
    }

    /// Replace the held configuration.
    pub fn set(&mut self, config: Config)
        ensures
            final(self)@ == config@,
    {
        self.config = config;
    }
}

/// What the configuration page renders: the configuration and an optional
/// notice.
pub struct ConfigRender {
    pub config: Config,
    pub flash: Option<(String, String)>,
}

} // verus!
