use desktop_shell::locator::{
    fallback_path, resolve_read_path, resolve_write_path, DocKind, LocatorError,
};

fn segs(parts: &[&str]) -> Vec<String> {
    parts.iter().map(|p| p.to_string()).collect()
}

#[test]
fn filenames_are_well_known() {
    assert_eq!(DocKind::Config.filename(), "mcp_agent.config.yaml");
    assert_eq!(DocKind::Secrets.filename(), "mcp_agent.secrets.yaml");
}

#[test]
fn fallback_pops_two_under_shell_subproject() {
    let cwd = segs(&["home", "dev", "project", "desktop-ui", "src-tauri"]);
    let p = fallback_path(&cwd, DocKind::Config);
    assert_eq!(p, segs(&["home", "dev", "project", "mcp_agent.config.yaml"]));
}

#[test]
fn fallback_pops_one_under_ui_root() {
    let cwd = segs(&["home", "dev", "project", "desktop-ui"]);
    let p = fallback_path(&cwd, DocKind::Secrets);
    assert_eq!(p, segs(&["home", "dev", "project", "mcp_agent.secrets.yaml"]));
}

#[test]
fn fallback_keeps_other_directories() {
    let cwd = segs(&["home", "dev", "project"]);
    let p = fallback_path(&cwd, DocKind::Config);
    assert_eq!(p, segs(&["home", "dev", "project", "mcp_agent.config.yaml"]));
}

#[test]
fn fallback_from_bare_shell_directory() {
    let cwd = segs(&["src-tauri"]);
    let p = fallback_path(&cwd, DocKind::Config);
    assert_eq!(p, segs(&["mcp_agent.config.yaml"]));
}

#[test]
fn read_prefers_existing_bundled_resource() {
    let resource = segs(&["opt", "app", "mcp_agent.config.yaml"]);
    let cwd = segs(&["home", "dev"]);
    let r = resolve_read_path(Some(resource.clone()), true, Some(cwd), true, DocKind::Config);
    assert_eq!(r, Ok(resource));
}

#[test]
fn read_falls_back_when_resource_missing() {
    let resource = segs(&["opt", "app", "mcp_agent.config.yaml"]);
    let cwd = segs(&["home", "dev", "src-tauri"]);
    let r = resolve_read_path(Some(resource), false, Some(cwd), true, DocKind::Config);
    assert_eq!(r, Ok(segs(&["home", "mcp_agent.config.yaml"])));
}

#[test]
fn read_of_missing_document_is_not_found() {
    let cwd = segs(&["home", "dev"]);
    let r = resolve_read_path(None, false, Some(cwd), false, DocKind::Config);
    assert_eq!(r, Err(LocatorError::NotFound));
}

#[test]
fn read_without_any_candidate_is_not_found() {
    let r = resolve_read_path(None, false, None, false, DocKind::Secrets);
    assert_eq!(r, Err(LocatorError::NotFound));
}

#[test]
fn write_uses_bundled_resource_unconditionally() {
    let resource = segs(&["opt", "app", "mcp_agent.secrets.yaml"]);
    let r = resolve_write_path(Some(resource.clone()), None, DocKind::Secrets);
    assert_eq!(r, Ok(resource));
}

#[test]
fn write_falls_back_without_existence_check() {
    let cwd = segs(&["home", "dev", "desktop-ui"]);
    let r = resolve_write_path(None, Some(cwd), DocKind::Config);
    assert_eq!(r, Ok(segs(&["home", "dev", "mcp_agent.config.yaml"])));
}

#[test]
fn write_with_nothing_resolvable_fails_unresolved() {
    let r = resolve_write_path(None, None, DocKind::Config);
    assert_eq!(r, Err(LocatorError::PathUnresolved));
}

#[test]
fn write_then_read_resolve_to_the_same_path() {
    let cwd = segs(&["home", "dev", "project", "desktop-ui", "src-tauri"]);
    let written = resolve_write_path(None, Some(cwd.clone()), DocKind::Config).unwrap();
    // after the write the fallback file exists, so a read resolves to it
    let read = resolve_read_path(None, false, Some(cwd), true, DocKind::Config).unwrap();
    assert_eq!(written, read);
}

#[test]
fn error_messages_name_the_document() {
    assert_eq!(LocatorError::NotFound.message(DocKind::Config), "Config file not found");
    assert_eq!(LocatorError::NotFound.message(DocKind::Secrets), "Secrets file not found");
    assert_eq!(
        LocatorError::PathUnresolved.message(DocKind::Config),
        "Config file path could not be resolved"
    );
    assert_eq!(
        LocatorError::PathUnresolved.message(DocKind::Secrets),
        "Secrets file path could not be resolved"
    );
}
