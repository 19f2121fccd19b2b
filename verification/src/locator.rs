use vstd::prelude::*;

verus! {

/// The two user-editable YAML documents this shell manages.
#[derive(Clone, Copy, PartialEq, Eq, Structural, Debug)]
pub enum DocKind {
    Config,
    Secrets,
}

/// How a resolution attempt fails: a read found no file at any candidate
/// location, or a write had no candidate location at all.
#[derive(Clone, Copy, PartialEq, Eq, Structural, Debug)]
pub enum LocatorError {
    NotFound,
    PathUnresolved,
}

/// Well-known relative file name of a document.
pub open spec fn spec_filename(kind: DocKind) -> Seq<char> {
    match kind {
        DocKind::Config => "mcp_agent.config.yaml"@,
        DocKind::Secrets => "mcp_agent.secrets.yaml"@,
    }
}

impl DocKind {
    /// Well-known relative file name of the document.
    pub fn filename(&self) -> (r: &'static str)
        ensures
            r@ == spec_filename(*self),
    {
        match self {
            DocKind::Config => "mcp_agent.config.yaml",
            DocKind::Secrets => "mcp_agent.secrets.yaml",
        }
    }
}

impl LocatorError {
    /// The error string surfaced to the UI layer, as it depends on the
    /// document the command was about.
    pub fn message(&self, kind: DocKind) -> (r: &'static str)
        ensures
            r@ == spec_message(*self, kind),
    {
        match (self, kind) {
            (LocatorError::NotFound, DocKind::Config) => "Config file not found",
            (LocatorError::NotFound, DocKind::Secrets) => "Secrets file not found",
            (LocatorError::PathUnresolved, DocKind::Config) => "Config file path could not be resolved",
            (LocatorError::PathUnresolved, DocKind::Secrets) => "Secrets file path could not be resolved",
        }
    }
}

pub open spec fn spec_message(e: LocatorError, kind: DocKind) -> Seq<char> {
    match (e, kind) {
        (LocatorError::NotFound, DocKind::Config) => "Config file not found"@,
        (LocatorError::NotFound, DocKind::Secrets) => "Secrets file not found"@,
        (LocatorError::PathUnresolved, DocKind::Config) => "Config file path could not be resolved"@,
        (LocatorError::PathUnresolved, DocKind::Secrets) => "Secrets file path could not be resolved"@,
    }
}

/// A path is a sequence of segments; popping the last segment of an empty
/// path leaves it empty, as popping the root of a filesystem path does.
pub open spec fn spec_pop(p: Seq<Seq<char>>) -> Seq<Seq<char>> {
    if p.len() == 0 {
        p
    } else {
        p.take(p.len() - 1)
    }
}

/// Name of the native-shell subproject directory: when a development run
/// starts there, the project root is two segments up.
pub open spec fn spec_shell_dir() -> Seq<char> {
    "src-tauri"@
}

/// Name of the UI-project root directory: when a development run starts
/// there, the project root is one segment up.
pub open spec fn spec_ui_dir() -> Seq<char> {
    "desktop-ui"@
}

/// The working-directory heuristic: from the current working directory,
/// step up to the assumed project root and append the well-known file name.
pub open spec fn spec_fallback(cwd: Seq<Seq<char>>, kind: DocKind) -> Seq<Seq<char>> {
    let base = if cwd.len() > 0 && cwd.last() == spec_shell_dir() {
        spec_pop(spec_pop(cwd))
    } else if cwd.len() > 0 && cwd.last() == spec_ui_dir() {
        spec_pop(cwd)
    } else {
        cwd
    };
    base.push(spec_filename(kind))
}

/// Computes the development-run fallback path for a document from the
/// current working directory, per the heuristic of `spec_fallback`.
pub fn fallback_path(cwd: &Vec<String>, kind: DocKind) -> (r: Vec<String>)
    ensures
        r.deep_view() == spec_fallback(cwd.deep_view(), kind),
{
    let ghost dv = cwd.deep_view();
    let n = cwd.len();
    let keep: usize = if n > 0 && crate::text::string_is(&cwd[n - 1], "src-tauri") {
        if n >= 2 {
            n - 2
        } else {
            0
        }
    } else if n > 0 && crate::text::string_is(&cwd[n - 1], "desktop-ui") {
        n - 1
    } else {
        n
    };
    proof {
        assert(dv.len() == n);
        if n > 0 && dv.last() == spec_shell_dir() {
            assert(spec_pop(spec_pop(dv)) =~= dv.take(keep as int));
        } else if n > 0 && dv.last() == spec_ui_dir() {
            assert(spec_pop(dv) =~= dv.take(keep as int));
        } else {
            assert(dv =~= dv.take(keep as int));
        }
    }
    let mut out: Vec<String> = Vec::new();
    let mut i: usize = 0;
    while i < keep
        invariant
            i <= keep,
            keep <= cwd.len(),
            out@.len() == i,
            forall|j: int| 0 <= j < i ==> out@[j] == cwd@[j],
        decreases keep - i,
    {
        out.push(cwd[i].clone());
        i += 1;
    }
    out.push(String::from_str(kind.filename()));
    proof {
        let goal = dv.take(keep as int).push(spec_filename(kind));
        assert(out@.len() == keep + 1);
        assert forall|j: int| 0 <= j < out@.len() implies #[trigger] out.deep_view()[j] == goal[j] by {
            assert(out.deep_view()[j] == out@[j].deep_view());
            if j < keep {
                assert(out@[j] == cwd@[j]);
                assert(dv[j] == cwd@[j].deep_view());
            }
        }
        assert(out.deep_view().len() == out@.len());
        assert(out.deep_view() =~= goal);
    }
    out
}

/// Resolution outcome for a read: the chosen path, first the bundled
/// resource if it exists, else the fallback path if that exists, else the
/// not-found error.
pub open spec fn spec_resolve_read(
    resource: Option<Seq<Seq<char>>>,
    resource_exists: bool,
    cwd: Option<Seq<Seq<char>>>,
    fallback_exists: bool,
    kind: DocKind,
) -> Result<Seq<Seq<char>>, LocatorError> {
    match resource {
        Some(p) if resource_exists => Ok(p),
        _ => match cwd {
            Some(c) if fallback_exists => Ok(spec_fallback(c, kind)),
            _ => Err(LocatorError::NotFound),
        },
    }
}

/// Resolution outcome for a write: the bundled resource unconditionally if
/// resolved, else the fallback path unconditionally if a working directory
/// is known, else the path-unresolved error. No existence check: a write
/// may create the file for the first time.
pub open spec fn spec_resolve_write(
    resource: Option<Seq<Seq<char>>>,
    cwd: Option<Seq<Seq<char>>>,
    kind: DocKind,
) -> Result<Seq<Seq<char>>, LocatorError> {
    match resource {
        Some(p) => Ok(p),
        None => match cwd {
            Some(c) => Ok(spec_fallback(c, kind)),
            None => Err(LocatorError::PathUnresolved),
        },
    }
}

pub open spec fn opt_path_view(o: Option<Vec<String>>) -> Option<Seq<Seq<char>>> {
    match o {
        Some(p) => Some(p.deep_view()),
        None => None,
    }
}

pub open spec fn resolution_view(r: Result<Vec<String>, LocatorError>) -> Result<
    Seq<Seq<char>>,
    LocatorError,
> {
    match r {
        Ok(p) => Ok(p.deep_view()),
        Err(e) => Err(e),
    }
}

/// Chooses the path a read of the document goes to, or fails. The caller
/// supplies the bundled-resource path if the platform resolved one, the
/// current working directory if one is known, and whether each candidate
/// file exists on disk; this function performs no filesystem action itself,
/// so a failed read resolution cannot create the file.
pub fn resolve_read_path(
    resource: Option<Vec<String>>,
    resource_exists: bool,
    cwd: Option<Vec<String>>,
    fallback_exists: bool,
    kind: DocKind,
) -> (r: Result<Vec<String>, LocatorError>)
    ensures
        resolution_view(r) == spec_resolve_read(
            opt_path_view(resource),
            resource_exists,
            opt_path_view(cwd),
            fallback_exists,
            kind,
        ),
{
    if resource.is_some() && resource_exists {
        return Ok(resource.unwrap());
    }
    match cwd {
        Some(c) => {
            if fallback_exists {
                Ok(fallback_path(&c, kind))
            } else {
                Err(LocatorError::NotFound)
            }
        },
        None => Err(LocatorError::NotFound),
    }
}

/// Chooses the path a write of the document goes to, or fails. This
/// function performs no filesystem action itself, so a failed write
/// resolution mutates nothing.
pub fn resolve_write_path(
    resource: Option<Vec<String>>,
    cwd: Option<Vec<String>>,
    kind: DocKind,
) -> (r: Result<Vec<String>, LocatorError>)
    ensures
        resolution_view(r) == spec_resolve_write(opt_path_view(resource), opt_path_view(cwd), kind),
{
    match resource {
        Some(p) => Ok(p),
        None => match cwd {
            Some(c) => Ok(fallback_path(&c, kind)),
            None => Err(LocatorError::PathUnresolved),
        },
    }
}

/// Law: when the working directory ends in the native-shell subproject
/// directory, the fallback path is two segments above the working directory
/// plus the well-known file name.
pub proof fn lemma_fallback_under_shell_dir(cwd: Seq<Seq<char>>, kind: DocKind)
    requires
        cwd.len() >= 2,
        cwd.last() == spec_shell_dir(),
    ensures
        spec_fallback(cwd, kind) == cwd.take(cwd.len() - 2).push(spec_filename(kind)),
{
    assert(spec_pop(spec_pop(cwd)) =~= cwd.take(cwd.len() - 2));
}

/// Law: a read of a document whose bundled resource exists goes to that
/// very path, whatever the working directory holds; the read then touches
/// no other location.
pub proof fn lemma_read_prefers_existing_resource(
    p: Seq<Seq<char>>,
    cwd: Option<Seq<Seq<char>>>,
    fallback_exists: bool,
    kind: DocKind,
)
    ensures
        spec_resolve_read(Some(p), true, cwd, fallback_exists, kind) == Ok::<
            Seq<Seq<char>>,
            LocatorError,
        >(p),
{
}

/// Law: a write resolution that succeeded, followed by a read resolution
/// made with the same resource path and working directory once the written
/// path exists on disk, resolves to the very same path. So text written to
/// a document is read back from the file the write created or overwrote.
pub proof fn lemma_write_then_read_same_path(
    resource: Option<Seq<Seq<char>>>,
    cwd: Option<Seq<Seq<char>>>,
    resource_exists: bool,
    fallback_exists: bool,
    kind: DocKind,
)
    requires
        spec_resolve_write(resource, cwd, kind) is Ok,
        // the path the write went to exists afterwards
        match resource {
            Some(_) => resource_exists,
            None => fallback_exists,
        },
    ensures
        spec_resolve_read(resource, resource_exists, cwd, fallback_exists, kind)
            == spec_resolve_write(resource, cwd, kind),
{
}

} // verus!
