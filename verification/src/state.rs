//! The state that the plugin's parts share.
//!
//! One value of [`PluginState`] stands for the whole process. It is blank
//! until [`initialize`] fills it, once and for good; every reader after that
//! sees the same context, configuration and handles.

use vstd::prelude::*;
use crate::config::{configuration_from, ConfigError, Configuration, ConfigurationView};
use crate::host::HostContext;

verus! {

/// `reqwest::blocking::Client`, a handle to an HTTP client. It is carried,
/// never looked into.
#[verifier::external_type_specification]
#[verifier::external_body]
pub struct ExHttpClient(reqwest::blocking::Client);

/// `threadpool::ThreadPool`, a handle to a pool of workers. It is carried,
/// never looked into.
#[verifier::external_type_specification]
#[verifier::external_body]
pub struct ExThreadPool(threadpool::ThreadPool);

/// Calls `Client::clone`. The client keeps its connections behind a shared
/// pointer, so the copy is a handle to the same client, not a second client.
#[verifier::external_body]
pub(crate) fn share_client(client: &reqwest::blocking::Client) -> (copy: reqwest::blocking::Client)
    ensures
        copy == *client,
{
    client.clone()
}

/// Calls `ThreadPool::clone`. The copy is a handle to the same pool of
/// workers: the crate's own `==` holds between the two.
#[verifier::external_body]
pub(crate) fn share_pool(pool: &threadpool::ThreadPool) -> (copy: threadpool::ThreadPool)
    ensures
        copy == *pool,
{
    pool.clone()
}

/// What the process shares: the host's context, the configuration, and the
/// handles to the HTTP client and to the worker pool.
pub struct PluginState {
    http_client: Option<reqwest::blocking::Client>,
    context: Option<HostContext>,
    config: Option<Configuration>,
    threadpool: Option<threadpool::ThreadPool>,
}

/// Why [`initialize`] left the state as it was.
#[derive(Clone, Copy, Debug, PartialEq, Eq, Structural)]
pub enum InitError {
    /// The state was initialized before.
    AlreadyInitialized,
    /// The host's configuration was turned down.
    Configuration(ConfigError),
}

impl PluginState {
    /// The fields are filled together: all of them, or none.
    #[verifier::type_invariant]
    closed spec fn filled_together(&self) -> bool {
        &&& self.context is Some <==> self.config is Some
        &&& self.context is Some <==> self.http_client is Some
        &&& self.context is Some <==> self.threadpool is Some
    }

    /// Whether [`initialize`] has filled the state.
    pub closed spec fn is_initialized(&self) -> bool {
        self.context is Some
    }

    /// The host's context, once initialized.
    pub closed spec fn context(&self) -> HostContext {
        self.context->Some_0
    }

    /// The configuration, once initialized.
    pub closed spec fn config(&self) -> ConfigurationView {
        self.config->Some_0@
    }

    /// The handle to the HTTP client, once initialized.
    pub closed spec fn http_client(&self) -> reqwest::blocking::Client {
        self.http_client->Some_0
    }

    /// The handle to the worker pool, once initialized.
    pub closed spec fn threadpool(&self) -> threadpool::ThreadPool {
        self.threadpool->Some_0
    }

    /// The blank state of a process that has not been initialized.
    pub fn new() -> (state: PluginState)
        ensures
            !state.is_initialized(),
    {
        PluginState { http_client: None, context: None, config: None, threadpool: None }
    }

    /// Whether [`initialize`] has filled the state.
    pub fn initialized(&self) -> (filled: bool)
        ensures
            filled == self.is_initialized(),
    {
        self.context.is_some()
    }
}

/// Fills the blank state with the host's context, the configuration read from
/// `config_bytes`, and the two handles, all at once.
///
/// A state that is filled stays as it is, and so does a blank one where the
/// configuration is turned down. The bytes of the configuration are fetched
/// from the host before this is called: whoever holds the state for writing
/// must not call the host, whose services read the state.
pub fn initialize(
    state: &mut PluginState,
    context: HostContext,
    config_bytes: &[u8],
    http_client: reqwest::blocking::Client,
    threadpool: threadpool::ThreadPool,
) -> (outcome: Result<(), InitError>)
    ensures
        old(state).is_initialized() ==> outcome == Err::<(), InitError>(InitError::AlreadyInitialized)
            && *final(state) == *old(state),
        !old(state).is_initialized() ==> match configuration_from(config_bytes@) {
            Ok(config) => {
                &&& outcome is Ok
                &&& final(state).is_initialized()
                &&& final(state).context() == context
                &&& final(state).config() == config
                &&& final(state).http_client() == http_client
                &&& final(state).threadpool() == threadpool
            },
            Err(e) => outcome == Err::<(), InitError>(InitError::Configuration(e)) && *final(state) == *old(
                state,
            ),
        },
{
    if state.initialized() {
        return Err(InitError::AlreadyInitialized);
    }
    match Configuration::from_bytes(config_bytes) {
        Ok(config) => {
            *state = PluginState {
                http_client: Some(http_client),
                context: Some(context),
                config: Some(config),
                threadpool: Some(threadpool),
            };
            Ok(())
        },
        Err(e) => Err(InitError::Configuration(e)),
    }
}

/// The host's context.
pub fn get_context(state: &PluginState) -> (context: HostContext)
    requires
        state.is_initialized(),
    ensures
        context == state.context(),
{
    match state.context {
        Some(context) => context,
        None => unreached(),
    }
}

/// A copy of the configuration.
pub fn get_config(state: &PluginState) -> (config: Configuration)
    requires
        state.is_initialized(),
    ensures
        config@ == state.config(),
{
    proof {
        use_type_invariant(state);
    }
    match &state.config {
        Some(config) => config.clone(),
        None => unreached(),
    }
}

/// Another handle to the shared worker pool.
pub fn get_threadpool(state: &PluginState) -> (pool: threadpool::ThreadPool)
    requires
        state.is_initialized(),
    ensures
        pool == state.threadpool(),
{
    proof {
        use_type_invariant(state);
    }
    match &state.threadpool {
        Some(pool) => share_pool(pool),
        None => unreached(),
    }
}

/// Another handle to the shared HTTP client.
pub fn get_http_client(state: &PluginState) -> (client: reqwest::blocking::Client)
    requires
        state.is_initialized(),
    ensures
        client == state.http_client(),
{
    proof {
        use_type_invariant(state);
    }
    match &state.http_client {
        Some(client) => share_client(client),
        None => unreached(),
    }
}

} // verus!
