use docker_native_manager::config::{read_current_context, set_current_context, ConfigFile};
use docker_native_manager::contexts::{
    create_context, current_meta_file, ends_listing, forget_removed_context,
    get_current_context_endpoint, list_contexts, remove_context, ContextMetadata, ContextsDir,
    CreateAction, CreateEvent, CreatePhase, DockerEndpoint, Endpoints, MetaEntry, MetaWrite,
    RemoveAction, RemoveEvent, RemovePhase,
};
use docker_native_manager::paths::{docker_config_dir, DockerPath, Platform};

fn dir() -> DockerPath {
    docker_config_dir(Platform::Unix, Some("/home/me"))
}

fn config(text: &str) -> ConfigFile {
    ConfigFile::Content(text.to_string())
}

fn meta(name: &str, host: &str) -> ContextMetadata {
    ContextMetadata {
        name: name.to_string(),
        metadata: None,
        endpoints: Endpoints {
            docker: DockerEndpoint { host: host.to_string(), skip_tls_verify: Some(false) },
        },
    }
}

const FILE: [&str; 6] = ["/home/me", ".docker", "contexts", "meta", "remote", "meta.json"];
const DIR: [&str; 5] = ["/home/me", ".docker", "contexts", "meta", "remote"];

#[test]
fn a_missing_directory_lists_nothing() {
    assert_eq!(list_contexts(&ConfigFile::Missing, &ContextsDir::Missing), Ok(vec![]));
}

#[test]
fn an_unreadable_directory_is_reported() {
    assert_eq!(
        list_contexts(&ConfigFile::Missing, &ContextsDir::Unreadable("no".to_string())),
        Err("Failed to read Docker contexts directory: no".to_string())
    );
}

#[test]
fn contexts_are_listed_in_order() {
    let found = ContextsDir::Entries(vec![
        MetaEntry::NoMetadata,
        MetaEntry::Metadata(meta("remote", "ssh://me@there")),
        MetaEntry::Malformed,
        MetaEntry::Metadata(meta("local", "unix:///var/run/docker.sock")),
    ]);
    let list = list_contexts(&config("{\"currentContext\":\"local\"}"), &found).unwrap();
    assert_eq!(list.len(), 2);
    assert_eq!(list[0].name, "remote");
    assert_eq!(list[0].description, "");
    assert_eq!(list[0].docker_endpoint, "ssh://me@there");
    assert!(!list[0].is_active);
    assert_eq!(list[1].name, "local");
    assert_eq!(list[1].docker_endpoint, "unix:///var/run/docker.sock");
    assert!(list[1].is_active);
    let none = list_contexts(&config("{"), &found).unwrap();
    assert!(!none[0].is_active && !none[1].is_active);
}

#[test]
fn the_first_error_ends_the_listing() {
    let found = ContextsDir::Entries(vec![
        MetaEntry::Metadata(meta("a", "b")),
        MetaEntry::Unreadable("first".to_string()),
        MetaEntry::Unlistable("second".to_string()),
    ]);
    assert_eq!(
        list_contexts(&ConfigFile::Missing, &found),
        Err("Failed to read context meta: first".to_string())
    );
    let found = ContextsDir::Entries(vec![MetaEntry::Unlistable("gone".to_string())]);
    assert_eq!(
        list_contexts(&ConfigFile::Missing, &found),
        Err("Failed to read entry: gone".to_string())
    );
    assert!(ends_listing(&MetaEntry::Unlistable("gone".to_string())));
    assert!(ends_listing(&MetaEntry::Unreadable("gone".to_string())));
    assert!(!ends_listing(&MetaEntry::NoMetadata));
    assert!(!ends_listing(&MetaEntry::Malformed));
    assert!(!ends_listing(&MetaEntry::Metadata(meta("a", "b"))));
}

#[test]
fn the_endpoint_is_that_of_the_current_context() {
    let current = config("{\"currentContext\":\"remote\"}");
    assert_eq!(current_meta_file(&dir(), &current).unwrap().parts, FILE);
    assert!(current_meta_file(&dir(), &ConfigFile::Missing).is_none());
    let found = Some(meta("remote", "tcp://there"));
    assert_eq!(get_current_context_endpoint(&current, &found), Some("tcp://there".to_string()));
    assert_eq!(get_current_context_endpoint(&current, &None), None);
    assert_eq!(get_current_context_endpoint(&ConfigFile::Missing, &found), None);
}

#[test]
fn a_context_is_created() {
    let (mut creation, first) = create_context(&dir(), "remote", "ssh://me@there");
    assert!(matches!(first, CreateAction::CheckFile(path) if path.parts == FILE));
    let second = creation.step(CreateEvent::Checked(false));
    assert!(matches!(second, CreateAction::MakeDir(path) if path.parts == DIR));
    match creation.step(CreateEvent::MadeDir(Ok(()))) {
        CreateAction::WriteMeta(path, meta) => {
            assert_eq!(path.parts, FILE);
            assert_eq!(meta.name, "remote");
            assert_eq!(meta.metadata, None);
            assert_eq!(meta.endpoints.docker.host, "ssh://me@there");
            assert_eq!(meta.endpoints.docker.skip_tls_verify, None);
            let current = config("{\"currentContext\":\"remote\"}");
            assert_eq!(
                get_current_context_endpoint(&current, &Some(meta)),
                Some("ssh://me@there".to_string())
            );
        }
        other => panic!("{:?}", other),
    }
    assert!(matches!(creation.step(CreateEvent::Written(MetaWrite::Done)), CreateAction::Done));
    assert_eq!(creation.phase, CreatePhase::Ended);
}

#[test]
fn a_creation_is_refused() {
    let (creation, first) = create_context(&dir(), "", "h");
    assert!(matches!(first, CreateAction::Refuse(e) if e == "Context name cannot be empty"));
    assert_eq!(creation.phase, CreatePhase::Ended);

    let (mut creation, _) = create_context(&dir(), "x", "h");
    let answer = creation.step(CreateEvent::Checked(true));
    assert!(matches!(answer, CreateAction::Refuse(e) if e == "Context 'x' already exists"));
    assert!(matches!(creation.step(CreateEvent::MadeDir(Ok(()))), CreateAction::Ignore));
}

#[test]
fn a_creation_fails() {
    let (mut creation, _) = create_context(&dir(), "x", "h");
    creation.step(CreateEvent::Checked(false));
    let answer = creation.step(CreateEvent::MadeDir(Err("full".to_string())));
    assert!(matches!(answer, CreateAction::Refuse(e) if e == "Failed to create context directory: full"));

    for (written, report) in [
        (MetaWrite::NotSerialized("odd".to_string()), "Failed to serialize context metadata: odd"),
        (MetaWrite::NotWritten("full".to_string()), "Failed to write context metadata: full"),
    ] {
        let (mut creation, _) = create_context(&dir(), "x", "h");
        creation.step(CreateEvent::Checked(false));
        creation.step(CreateEvent::MadeDir(Ok(())));
        let answer = creation.step(CreateEvent::Written(written));
        assert!(matches!(answer, CreateAction::Refuse(e) if e == report));
    }
}

#[test]
fn the_current_context_is_removed() {
    let (mut removal, first) = remove_context(&dir(), "remote");
    assert!(matches!(first, RemoveAction::CheckDir(path) if path.parts == DIR));
    let second = removal.step(RemoveEvent::Checked(true));
    assert!(matches!(second, RemoveAction::RemoveDir(path) if path.parts == DIR));
    assert!(matches!(removal.step(RemoveEvent::Removed(Ok(()))), RemoveAction::ReadConfig));
    let file = config("{\"a\":1,\"currentContext\":\"remote\"}");
    match removal.step(RemoveEvent::ConfigRead(file)) {
        RemoveAction::WriteConfig(text) => {
            assert_eq!(text, "{\n  \"a\": 1\n}");
            assert_eq!(read_current_context(&config(&text)), None);
        }
        other => panic!("{:?}", other),
    }
    assert!(matches!(removal.step(RemoveEvent::ConfigWritten(Ok(()))), RemoveAction::Done));
    assert_eq!(removal.phase, RemovePhase::Ended);
}

#[test]
fn another_context_is_removed() {
    for file in [config("{\"currentContext\":\"other\"}"), ConfigFile::Missing, config("{")] {
        let (mut removal, _) = remove_context(&dir(), "remote");
        removal.step(RemoveEvent::Checked(true));
        removal.step(RemoveEvent::Removed(Ok(())));
        assert!(matches!(removal.step(RemoveEvent::ConfigRead(file)), RemoveAction::Done));
    }
}

#[test]
fn a_removal_fails() {
    let (mut removal, _) = remove_context(&dir(), "remote");
    let answer = removal.step(RemoveEvent::Checked(false));
    assert!(matches!(answer, RemoveAction::Refuse(e) if e == "Context 'remote' not found"));
    assert!(matches!(removal.step(RemoveEvent::Removed(Ok(()))), RemoveAction::Ignore));

    let (mut removal, _) = remove_context(&dir(), "remote");
    removal.step(RemoveEvent::Checked(true));
    let answer = removal.step(RemoveEvent::Removed(Err("busy".to_string())));
    assert!(matches!(answer, RemoveAction::Refuse(e) if e == "Failed to remove context directory: busy"));

    let (mut removal, _) = remove_context(&dir(), "remote");
    removal.step(RemoveEvent::Checked(true));
    removal.step(RemoveEvent::Removed(Ok(())));
    removal.step(RemoveEvent::ConfigRead(config("{\"currentContext\":\"remote\"}")));
    let answer = removal.step(RemoveEvent::ConfigWritten(Err("full".to_string())));
    assert!(matches!(answer, RemoveAction::Refuse(e) if e == "Failed to write Docker config: full"));
}

#[test]
fn only_the_current_context_is_forgotten() {
    let file = config("{\"currentContext\":\"a\"}");
    assert_eq!(forget_removed_context(&file, "a"), Ok(Some("{}".to_string())));
    assert_eq!(forget_removed_context(&file, "b"), Ok(None));
}

#[test]
fn a_created_context_that_is_set_gives_its_host() {
    for host in ["", "ssh://me@there"] {
        for before in [ConfigFile::Missing, config("{\"f\":1.5,\"currentContext\":\"a\"}")] {
            let (mut creation, _) = create_context(&dir(), "remote", host);
            creation.step(CreateEvent::Checked(false));
            let meta = match creation.step(CreateEvent::MadeDir(Ok(()))) {
                CreateAction::WriteMeta(path, meta) => {
                    assert_eq!(path.parts, FILE);
                    meta
                }
                other => panic!("{:?}", other),
            };
            let current = config(&set_current_context(&before, "remote").unwrap());
            assert_eq!(current_meta_file(&dir(), &current).unwrap().parts, FILE);
            let found = get_current_context_endpoint(&current, &Some(meta));
            assert_eq!(found, Some(host.to_string()));
        }
    }
}
