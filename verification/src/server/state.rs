//! Decisions of the server-owned runtime state: which workspace roots are accepted, when the
//! single managed rust-analyzer session must be replaced, and how routed failures are reported.

use vstd::prelude::*;
use crate::json::str_eq;
use crate::path::{comps_view, has_root, path_components, spec_components, PathComponent};
use crate::server::error::{plain_view, workspace_error_view, workspace_error_wf, ErrorView, ServerError, ServerErrorKind};
use crate::text::concat_str;
use crate::workspace::{WorkspaceSessionError, WorkspaceSessionPhase};

verus! {

/// Whether a workspace root is an absolute path.
pub fn workspace_root_is_absolute(root: &str) -> (r: bool)
    ensures
        r == has_root(root@),
{
    root.unicode_len() > 0 && root.get_char(0) == '/'
}

/// The outcome of checking a workspace root, given its canonical form on disk (when it
/// has one) and whether that form is a directory.
pub open spec fn spec_workspace_root(
    root: Seq<char>,
    canonical: Option<Seq<char>>,
    canonical_is_dir: bool,
) -> Result<Seq<char>, ErrorView> {
    if !has_root(root) {
        Err(plain_view(ServerErrorKind::InvalidInput, "workspace root must be an absolute path"@, false))
    } else {
        match canonical {
            None => Err(plain_view(
                ServerErrorKind::InvalidInput,
                "workspace root is not available on disk: "@ + root,
                false,
            )),
            Some(c) => if canonical_is_dir {
                Ok(c)
            } else {
                Err(plain_view(
                    ServerErrorKind::InvalidInput,
                    "workspace root must point to a directory: "@ + c,
                    false,
                ))
            },
        }
    }
}

/// The result of a workspace-root check in the model.
pub open spec fn root_result_view(r: Result<String, ServerError>) -> Result<Seq<char>, ErrorView> {
    match r {
        Ok(p) => Ok(p@),
        Err(e) => Err(e@),
    }
}

/// Accepts an absolute workspace root whose canonical form is a directory, and returns that
/// canonical form. `canonical` is the root resolved on disk (`None` when it could not be
/// resolved); it is only consulted for an absolute root.
pub fn normalize_workspace_root(root: &str, canonical: Option<String>, canonical_is_dir: bool) -> (r: Result<String, ServerError>)
    ensures
        root_result_view(r) == spec_workspace_root(
            root@,
            match canonical {
                Some(c) => Some(c@),
                None => None,
            },
            canonical_is_dir,
        ),
{
    if !workspace_root_is_absolute(root) {
        return Err(ServerError::invalid_input("workspace root must be an absolute path".to_owned()));
    }
    match canonical {
        None => Err(ServerError::invalid_input(concat_str("workspace root is not available on disk: ", root))),
        Some(c) => {
            if canonical_is_dir {
                Ok(c)
            } else {
                Err(ServerError::invalid_input(concat_str("workspace root must point to a directory: ", c.as_str())))
            }
        },
    }
}

/// Whether two paths are equal component by component, as path equality is.
pub fn same_path(a: &str, b: &str) -> (r: bool)
    ensures
        r == (spec_components(a@) == spec_components(b@)),
{
    let ca = path_components(a);
    let cb = path_components(b);
    if ca.len() != cb.len() {
        assert(comps_view(ca@).len() != comps_view(cb@).len());
        return false;
    }
    let mut i: usize = 0;
    while i < ca.len()
        invariant
            ca@.len() == cb@.len(),
            comps_view(ca@) == spec_components(a@),
            comps_view(cb@) == spec_components(b@),
            i <= ca@.len(),
            forall|k: int| 0 <= k < i ==> comps_view(ca@)[k] == comps_view(cb@)[k],
        decreases ca@.len() - i,
    {
        let same = match (&ca[i], &cb[i]) {
            (PathComponent::RootDir, PathComponent::RootDir) => true,
            (PathComponent::CurDir, PathComponent::CurDir) => true,
            (PathComponent::ParentDir, PathComponent::ParentDir) => true,
            (PathComponent::Normal(x), PathComponent::Normal(y)) => str_eq(x.as_str(), y.as_str()),
            _ => false,
        };
        assert(comps_view(ca@)[i as int] == ca@[i as int]@);
        assert(comps_view(cb@)[i as int] == cb@[i as int]@);
        assert(same == (ca@[i as int]@ == cb@[i as int]@));
        if !same {
            assert(comps_view(ca@)[i as int] != comps_view(cb@)[i as int]);
            return false;
        }
        i += 1;
    }
    assert(comps_view(ca@) =~= comps_view(cb@));
    true
}

/// Whether a session in this phase can no longer serve requests.
pub open spec fn phase_is_terminal(phase: WorkspaceSessionPhase) -> bool {
    phase == WorkspaceSessionPhase::Failed || phase == WorkspaceSessionPhase::Shutdown
}

/// Whether the managed session must be (re)created before routing work to `root`: there is
/// none, it serves another root, it failed or shut down, or its transport disconnected.
pub open spec fn spec_must_spawn(
    current_root: Option<Seq<char>>,
    root: Seq<char>,
    phase: WorkspaceSessionPhase,
    disconnected: bool,
) -> bool {
    match current_root {
        None => true,
        Some(c) => spec_components(c) != spec_components(root) || phase_is_terminal(phase) || disconnected,
    }
}

/// The server manages one session at a time: the first work starts one, work for another
/// root than the managed session's replaces it, and a ready, connected session for the same
/// root is reused.
pub proof fn law_one_session_per_root(
    current: Seq<char>,
    root: Seq<char>,
    phase: WorkspaceSessionPhase,
    disconnected: bool,
)
    ensures
        spec_must_spawn(None, root, phase, disconnected),
        spec_components(current) != spec_components(root) ==> spec_must_spawn(Some(current), root, phase, disconnected),
        spec_components(current) == spec_components(root) && phase == WorkspaceSessionPhase::Ready && !disconnected
            ==> !spec_must_spawn(Some(current), root, phase, disconnected),
{
}

/// Decides whether the managed session must be (re)created before routing work to `root`.
/// `phase` and `disconnected` describe the current session and matter only when there is one.
pub fn must_spawn(current_root: Option<&str>, root: &str, phase: WorkspaceSessionPhase, disconnected: bool) -> (r: bool)
    ensures
        r == spec_must_spawn(
            match current_root {
                Some(c) => Some(c@),
                None => None,
            },
            root@,
            phase,
            disconnected,
        ),
{
    match current_root {
        None => true,
        Some(current) => {
            !same_path(current, root) || phase == WorkspaceSessionPhase::Failed
                || phase == WorkspaceSessionPhase::Shutdown || disconnected
        },
    }
}

/// The error reported when work is routed before a session configuration was set.
pub fn missing_session_config() -> (r: ServerError)
    ensures
        r@ == plain_view(ServerErrorKind::Internal, "workspace session config is not set"@, false),
{
    ServerError::internal("workspace session config is not set".to_owned())
}

/// The error reported when routed work fails: the workspace error, marked with the operation.
pub fn operation_error(error: WorkspaceSessionError, operation: &str) -> (r: ServerError)
    requires
        workspace_error_wf(error),
    ensures
        r@ == (ErrorView { operation: Some(operation@), ..workspace_error_view(error) }),
{
    ServerError::from_workspace_error(error).with_operation(operation.to_owned())
}

/// The error reported when the task running routed work fails.
pub fn task_failure(operation: &str, detail: &str) -> (r: ServerError)
    ensures
        r@ == (ErrorView {
            operation: Some(operation@),
            ..plain_view(ServerErrorKind::Internal, "workspace operation task failed: "@ + detail@, false)
        }),
{
    ServerError::internal(concat_str("workspace operation task failed: ", detail)).with_operation(operation.to_owned())
}

} // verus!
