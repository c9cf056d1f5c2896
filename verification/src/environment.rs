//! Staged configuration of the environment variables that the native
//! GUI layer reads when it initializes: the plugin search path and the
//! flag that suppresses its own signal handlers.
//!
//! A `QtEnvironment` value holds the variables' staged contents as
//! plain byte strings.  The caller writes them into the real process
//! environment afterwards; all three operations here must take effect
//! there before the native application object is created.

use vstd::prelude::*;

use crate::paths::all_paths_legal;
use crate::paths::join_paths;
use crate::paths::join_spec;
use crate::paths::parent_dir;
use crate::paths::parent_spec;
use crate::paths::path_is_legal;
use crate::paths::path_views;
use crate::paths::JoinPathsError;

verus! {

/// Error of configuring a local deployment.
#[derive(Clone, Copy, Debug, PartialEq, Eq)]
pub enum DeploymentError {
    /// The executable's location could not be turned into a directory:
    /// the path was empty or had no parent.
    ResolutionError,
    /// The executable's directory cannot stand in a joined path list.
    InvalidPath,
}

/// Contents of the staged environment: for each variable, the byte
/// string to be written, or `None` where nothing is staged.
#[verifier::ext_equal]
pub struct EnvModel {
    /// Staged value of the plugin-search-path variable.
    pub plugin_path: Option<Seq<u8>>,
    /// Staged value of the signal-handler-disable flag variable.
    pub no_signal_handler_flag: Option<Seq<u8>>,
}

/// The byte string `"1"`, the value that switches the signal-handler
/// flag on.
pub open spec fn flag_on_value() -> Seq<u8> {
    seq![49u8]
}

/// The staged environment after a successful set of the search path:
/// the joined list replaces whatever was staged before.
pub open spec fn with_search_path(e: EnvModel, ps: Seq<Seq<u8>>) -> EnvModel {
    EnvModel { plugin_path: Some(join_spec(ps)), ..e }
}

/// The staged environment after disabling the signal handlers: the
/// flag variable is staged to `"1"`.
pub open spec fn with_signal_handlers_disabled(e: EnvModel) -> EnvModel {
    EnvModel { no_signal_handler_flag: Some(flag_on_value()), ..e }
}

/// Contents of an optional byte vector.
pub open spec fn opt_bytes_view(o: Option<Vec<u8>>) -> Option<Seq<u8>> {
    match o {
        Some(v) => Some(v@),
        None => None,
    }
}

/// Staged values of the two environment variables the native layer
/// consults at startup.
pub struct QtEnvironment {
    /// Staged plugin search path, a joined path list.
    pub plugin_path: Option<Vec<u8>>,
    /// Staged signal-handler-disable flag.
    pub no_signal_handler_flag: Option<Vec<u8>>,
}

impl View for QtEnvironment {
    type V = EnvModel;

    open spec fn view(&self) -> EnvModel {
        EnvModel {
            plugin_path: opt_bytes_view(self.plugin_path),
            no_signal_handler_flag: opt_bytes_view(self.no_signal_handler_flag),
        }
    }
}

impl QtEnvironment {
    /// Fresh staging area with nothing staged.
    pub fn new() -> (r: QtEnvironment)
        ensures
            r@ == (EnvModel { plugin_path: None, no_signal_handler_flag: None }),
    {
        QtEnvironment { plugin_path: None, no_signal_handler_flag: None }
    }

    /// Stages the plugin search path: the given paths joined in order
    /// with the path-list separator.  Succeeds exactly when no path of
    /// the list contains the separator itself; on failure nothing is
    /// changed.
    pub fn set_search_path(&mut self, paths: &Vec<Vec<u8>>) -> (r: Result<(), JoinPathsError>)
        ensures
            r is Ok <==> all_paths_legal(path_views(paths@)),
            r is Ok ==> final(self)@ == with_search_path(old(self)@, path_views(paths@)),
            r is Err ==> *final(self) == *old(self),
    {
        match join_paths(paths) {
            Ok(joined) => {
                self.plugin_path = Some(joined);
                Ok(())
            },
            Err(e) => Err(e),
        }
    }

    /// Stages the executable's own directory as the only entry of the
    /// plugin search path, for a deployment of the native libraries
    /// beside the executable.  Fails with `ResolutionError` when the
    /// executable path has no parent directory, and with `InvalidPath`
    /// when that directory cannot stand in a path list; on failure
    /// nothing is changed.
    pub fn configure_local_deployment(&mut self, exe: &Vec<u8>) -> (r: Result<(), DeploymentError>)
        ensures
            parent_spec(exe@) is None ==> r == Err::<(), DeploymentError>(
                DeploymentError::ResolutionError,
            ) && *final(self) == *old(self),
            parent_spec(exe@) matches Some(d) ==> (if path_is_legal(d) {
                r is Ok && final(self)@ == (EnvModel { plugin_path: Some(d), ..old(self)@ })
            } else {
                r == Err::<(), DeploymentError>(DeploymentError::InvalidPath) && *final(self)
                    == *old(self)
            }),
    {
        match parent_dir(exe) {
            None => Err(DeploymentError::ResolutionError),
            Some(dir) => {
                let mut paths: Vec<Vec<u8>> = Vec::new();
                paths.push(dir);
                match self.set_search_path(&paths) {
                    Ok(()) => Ok(()),
                    Err(_) => Err(DeploymentError::InvalidPath),
                }
            },
        }
    }

    /// Stages the flag that asks the native platform-abstraction layer
    /// not to install its own signal handlers: the flag variable is set
    /// to `"1"`.  Always succeeds; the search path is untouched.
    pub fn disable_qpa_signal_handlers(&mut self)
        ensures
            final(self)@ == with_signal_handlers_disabled(old(self)@),
    {
        let mut flag: Vec<u8> = Vec::new();
        flag.push(49);
        self.no_signal_handler_flag = Some(flag);
    }
}

/// Law: staging the search path overwrites.  Setting one list and then
/// another leaves exactly what setting the second alone leaves.
pub proof fn lemma_set_search_path_overwrites(e: EnvModel, a: Seq<Seq<u8>>, b: Seq<Seq<u8>>)
    requires
        all_paths_legal(a),
        all_paths_legal(b),
    ensures
        with_search_path(with_search_path(e, a), b) == with_search_path(e, b),
{
}

/// Law: disabling the signal handlers is idempotent.  A second call
/// leaves the staged environment exactly as the first left it.
pub proof fn lemma_disable_qpa_signal_handlers_idempotent(e: EnvModel)
    ensures
        with_signal_handlers_disabled(with_signal_handlers_disabled(e))
            == with_signal_handlers_disabled(e),
{
}

} // verus!
