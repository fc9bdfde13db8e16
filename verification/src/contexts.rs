//! The contexts that Docker knows, each in a directory of its own.

use vstd::prelude::*;

use crate::config::{
    clear_current_context, config_in, current_in, current_in_text, law_read_after_set, parsed_config,
    read_current_context, with_current, without_current, ConfigFile,
};
use crate::failure::{failure, report_of, Step};
use crate::json::{
    float_free, json_of, json_parse, json_pretty, max_nesting, nested_within, reads_back, Json,
};
use crate::paths::{context_dir, context_dir_in, law_places, meta_file, meta_file_in, DockerPath};
use crate::text::{joined, same, text_in};

verus! {

/// How the Docker daemon of a context is reached.
#[derive(Debug)]
pub struct DockerEndpoint {
    pub host: String,
    pub skip_tls_verify: Option<bool>,
}

/// The endpoints of a context.
#[derive(Debug)]
pub struct Endpoints {
    pub docker: DockerEndpoint,
}

/// What the metadata file of a context holds.
#[derive(Debug)]
pub struct ContextMetadata {
    pub name: String,
    pub metadata: Option<serde_json::Value>,
    pub endpoints: Endpoints,
}

/// One context, as it is shown in the list of contexts.
#[derive(Debug, PartialEq, Eq)]
pub struct DockerContextInfo {
    pub name: String,
    pub description: String,
    pub docker_endpoint: String,
    pub is_active: bool,
}

/// What was found of one entry in the directory of contexts.
#[derive(Debug)]
pub enum MetaEntry {
    /// The entry could not be listed, for this reason.
    Unlistable(String),
    /// The entry holds no metadata file.
    NoMetadata,
    /// The metadata file could not be read, for this reason.
    Unreadable(String),
    /// The metadata file holds no metadata.
    Malformed,
    /// The metadata file holds this.
    Metadata(ContextMetadata),
}

/// What was found of the directory of contexts.
#[derive(Debug)]
pub enum ContextsDir {
    /// There is no such directory.
    Missing,
    /// The directory could not be listed, for this reason.
    Unreadable(String),
    /// The directory has these entries, in the order in which they were listed.
    Entries(Vec<MetaEntry>),
}

/// What came of writing a metadata file.
#[derive(Debug)]
pub enum MetaWrite {
    /// It was written.
    Done,
    /// The metadata could not be turned into text, for this reason.
    NotSerialized(String),
    /// The text could not be written, for this reason.
    NotWritten(String),
}

/// Where the creation of a context stands: what it waits to hear of.
#[derive(Clone, Copy, Debug, PartialEq, Eq, Structural)]
pub enum CreatePhase {
    Checking,
    MakingDir,
    Writing,
    Ended,
}

/// What the creation of a context hears.
#[derive(Debug)]
pub enum CreateEvent {
    /// Whether the file exists.
    Checked(bool),
    /// The directory was made, or could not be, for this reason.
    MadeDir(Result<(), String>),
    /// What came of writing the metadata.
    Written(MetaWrite),
}

/// What the creation of a context asks for.
#[derive(Debug)]
pub enum CreateAction {
    /// See whether this file exists.
    CheckFile(DockerPath),
    /// Make this directory, with its parents.
    MakeDir(DockerPath),
    /// Write this metadata to this file, as indented JSON.
    WriteMeta(DockerPath, ContextMetadata),
    /// Nothing more: the context is created.
    Done,
    /// Nothing more than to report this error.
    Refuse(String),
    /// Nothing: what was heard is not what was asked.
    Ignore,
}

/// The creation of a context.
#[derive(Debug)]
pub struct CreateContext {
    pub dir: DockerPath,
    pub name: String,
    pub host: String,
    pub phase: CreatePhase,
}

/// Where the removal of a context stands: what it waits to hear of.
#[derive(Clone, Copy, Debug, PartialEq, Eq, Structural)]
pub enum RemovePhase {
    Checking,
    Removing,
    Reading,
    Writing,
    Ended,
}

/// What the removal of a context hears.
#[derive(Debug)]
pub enum RemoveEvent {
    /// Whether the directory exists.
    Checked(bool),
    /// The directory was removed, or could not be, for this reason.
    Removed(Result<(), String>),
    /// What was found of the configuration file.
    ConfigRead(ConfigFile),
    /// The configuration file was written, or could not be, for this reason.
    ConfigWritten(Result<(), String>),
}

/// What the removal of a context asks for.
#[derive(Debug)]
pub enum RemoveAction {
    /// See whether this directory exists.
    CheckDir(DockerPath),
    /// Remove this directory, with all that it holds.
    RemoveDir(DockerPath),
    /// Read the configuration file.
    ReadConfig,
    /// Write this to the configuration file.
    WriteConfig(String),
    /// Nothing more: the context is removed.
    Done,
    /// Nothing more than to report this error.
    Refuse(String),
    /// Nothing: what was heard is not what was asked.
    Ignore,
}

/// The removal of a context.
#[derive(Debug)]
pub struct RemoveContext {
    pub dir: DockerPath,
    pub name: String,
    pub phase: RemovePhase,
}

// ---- models ----

/// What a `DockerContextInfo` shows.
pub ghost struct Shown {
    pub name: Seq<char>,
    pub description: Seq<char>,
    pub docker_endpoint: Seq<char>,
    pub is_active: bool,
}

impl View for DockerContextInfo {
    type V = Shown;

    open spec fn view(&self) -> Shown {
        Shown {
            name: self.name@,
            description: self.description@,
            docker_endpoint: self.docker_endpoint@,
            is_active: self.is_active,
        }
    }
}

/// What a list of contexts shows.
pub open spec fn shown(infos: Seq<DockerContextInfo>) -> Seq<Shown> {
    infos.map_values(|info: DockerContextInfo| info@)
}

/// What is shown of a context where `current` is the current one. A context is active exactly when
/// it bears the name of the current context.
pub open spec fn shown_of(meta: ContextMetadata, current: Option<Seq<char>>) -> Shown {
    Shown {
        name: meta.name@,
        description: Seq::empty(),
        docker_endpoint: meta.endpoints.docker.host@,
        is_active: current == Some(meta.name@),
    }
}

/// The error with which an entry ends the listing, if it does.
pub open spec fn error_of(entry: MetaEntry) -> Option<Seq<char>> {
    match entry {
        MetaEntry::Unlistable(reason) => Some("Failed to read entry: "@ + reason@),
        MetaEntry::Unreadable(reason) => Some("Failed to read context meta: "@ + reason@),
        _ => None,
    }
}

/// What the entries without an error show, in their order: one context for each metadata.
pub open spec fn shown_in(entries: Seq<MetaEntry>, current: Option<Seq<char>>) -> Seq<Shown>
    decreases entries.len(),
{
    if entries.len() == 0 {
        Seq::empty()
    } else {
        let before = shown_in(entries.drop_last(), current);
        match entries.last() {
            MetaEntry::Metadata(meta) => before.push(shown_of(meta, current)),
            _ => before,
        }
    }
}

/// Whether `i` is the first entry that ends the listing.
pub open spec fn first_error_at(entries: Seq<MetaEntry>, i: int) -> bool {
    &&& 0 <= i < entries.len()
    &&& error_of(entries[i]) is Some
    &&& forall|j: int| 0 <= j < i ==> error_of(#[trigger] entries[j]) is None
}

/// The host of the current context, given its name and what its metadata file holds.
pub open spec fn endpoint_of(current: Option<Seq<char>>, meta: Option<ContextMetadata>) -> Option<
    Seq<char>,
> {
    match (current, meta) {
        (Some(_), Some(found)) => Some(found.endpoints.docker.host@),
        _ => None,
    }
}

/// What a `ContextMetadata` holds.
pub ghost struct Meta {
    pub name: Seq<char>,
    pub metadata: Option<Json>,
    pub host: Seq<char>,
    pub skip_tls_verify: Option<bool>,
}

impl View for ContextMetadata {
    type V = Meta;

    open spec fn view(&self) -> Meta {
        Meta {
            name: self.name@,
            metadata: match self.metadata {
                Some(value) => Some(json_of(value)),
                None => None,
            },
            host: self.endpoints.docker.host@,
            skip_tls_verify: self.endpoints.docker.skip_tls_verify,
        }
    }
}

/// The metadata of a new context.
pub open spec fn new_meta(name: Seq<char>, host: Seq<char>) -> Meta {
    Meta { name, metadata: None, host, skip_tls_verify: None }
}

/// What a `CreateAction` asks.
pub ghost enum CreateAsk {
    CheckFile(Seq<Seq<char>>),
    MakeDir(Seq<Seq<char>>),
    WriteMeta(Seq<Seq<char>>, Meta),
    Done,
    Refuse(Seq<char>),
    Ignore,
}

impl View for CreateAction {
    type V = CreateAsk;

    open spec fn view(&self) -> CreateAsk {
        match *self {
            CreateAction::CheckFile(path) => CreateAsk::CheckFile(path@),
            CreateAction::MakeDir(path) => CreateAsk::MakeDir(path@),
            CreateAction::WriteMeta(path, meta) => CreateAsk::WriteMeta(path@, meta@),
            CreateAction::Done => CreateAsk::Done,
            CreateAction::Refuse(error) => CreateAsk::Refuse(error@),
            CreateAction::Ignore => CreateAsk::Ignore,
        }
    }
}

/// Where the creation of the context `name` begins, and what it asks first.
pub open spec fn create_begin(dir: Seq<Seq<char>>, name: Seq<char>) -> (CreatePhase, CreateAsk) {
    if name.len() == 0 {
        (CreatePhase::Ended, CreateAsk::Refuse("Context name cannot be empty"@))
    } else {
        (
            CreatePhase::Checking,
            CreateAsk::CheckFile(meta_file_in(context_dir_in(dir, name))),
        )
    }
}

/// Where the creation of the context `name` for `host` stands once it has heard an event, and what it
/// then asks.
pub open spec fn create_step(
    dir: Seq<Seq<char>>,
    name: Seq<char>,
    host: Seq<char>,
    phase: CreatePhase,
    event: CreateEvent,
) -> (CreatePhase, CreateAsk) {
    match (phase, event) {
        (CreatePhase::Checking, CreateEvent::Checked(exists)) => if exists {
            (
                CreatePhase::Ended,
                CreateAsk::Refuse("Context '"@ + name + "' already exists"@),
            )
        } else {
            (CreatePhase::MakingDir, CreateAsk::MakeDir(context_dir_in(dir, name)))
        },
        (CreatePhase::MakingDir, CreateEvent::MadeDir(made)) => match made {
            Ok(_) => (
                CreatePhase::Writing,
                CreateAsk::WriteMeta(
                    meta_file_in(context_dir_in(dir, name)),
                    new_meta(name, host),
                ),
            ),
            Err(reason) => (
                CreatePhase::Ended,
                CreateAsk::Refuse(report_of(Step::CreateContextDir) + reason@),
            ),
        },
        (CreatePhase::Writing, CreateEvent::Written(written)) => (
            CreatePhase::Ended,
            match written {
                MetaWrite::Done => CreateAsk::Done,
                MetaWrite::NotSerialized(reason) => CreateAsk::Refuse(
                    report_of(Step::SerializeMeta) + reason@,
                ),
                MetaWrite::NotWritten(reason) => CreateAsk::Refuse(
                    report_of(Step::WriteMeta) + reason@,
                ),
            },
        ),
        _ => (phase, CreateAsk::Ignore),
    }
}

/// What a `RemoveAction` asks.
pub ghost enum RemoveAsk {
    CheckDir(Seq<Seq<char>>),
    RemoveDir(Seq<Seq<char>>),
    ReadConfig,
    WriteConfig(Seq<char>),
    Done,
    Refuse(Seq<char>),
    Ignore,
}

impl View for RemoveAction {
    type V = RemoveAsk;

    open spec fn view(&self) -> RemoveAsk {
        match *self {
            RemoveAction::CheckDir(path) => RemoveAsk::CheckDir(path@),
            RemoveAction::RemoveDir(path) => RemoveAsk::RemoveDir(path@),
            RemoveAction::ReadConfig => RemoveAsk::ReadConfig,
            RemoveAction::WriteConfig(text) => RemoveAsk::WriteConfig(text@),
            RemoveAction::Done => RemoveAsk::Done,
            RemoveAction::Refuse(error) => RemoveAsk::Refuse(error@),
            RemoveAction::Ignore => RemoveAsk::Ignore,
        }
    }
}

/// Where the removal of the context `name` stands once it has heard an event, and what it then asks.
pub open spec fn remove_step(
    dir: Seq<Seq<char>>,
    name: Seq<char>,
    phase: RemovePhase,
    event: RemoveEvent,
) -> (RemovePhase, RemoveAsk) {
    match (phase, event) {
        (RemovePhase::Checking, RemoveEvent::Checked(exists)) => if exists {
            (RemovePhase::Removing, RemoveAsk::RemoveDir(context_dir_in(dir, name)))
        } else {
            (RemovePhase::Ended, RemoveAsk::Refuse("Context '"@ + name + "' not found"@))
        },
        (RemovePhase::Removing, RemoveEvent::Removed(removed)) => match removed {
            Ok(_) => (RemovePhase::Reading, RemoveAsk::ReadConfig),
            Err(reason) => (
                RemovePhase::Ended,
                RemoveAsk::Refuse(report_of(Step::RemoveContextDir) + reason@),
            ),
        },
        (RemovePhase::Reading, RemoveEvent::ConfigRead(config)) => if current_in(config) == Some(
            name,
        ) {
            (
                RemovePhase::Writing,
                RemoveAsk::WriteConfig(json_pretty(without_current(config_in(config)->Ok_0))),
            )
        } else {
            (RemovePhase::Ended, RemoveAsk::Done)
        },
        (RemovePhase::Writing, RemoveEvent::ConfigWritten(written)) => match written {
            Ok(_) => (RemovePhase::Ended, RemoveAsk::Done),
            Err(reason) => (
                RemovePhase::Ended,
                RemoveAsk::Refuse(report_of(Step::WriteConfig) + reason@),
            ),
        },
        _ => (phase, RemoveAsk::Ignore),
    }
}

// ---- functions ----

/// Whether nothing after this entry matters to the list of contexts.
pub fn ends_listing(entry: &MetaEntry) -> (ends: bool)
    ensures
        ends == (error_of(*entry) is Some),
{
    match entry {
        MetaEntry::Unlistable(_) => true,
        MetaEntry::Unreadable(_) => true,
        _ => false,
    }
}

/// Adds what an entry of the directory shows to a list of contexts.
fn add_entry(
    contexts: &mut Vec<DockerContextInfo>,
    current: &Option<String>,
    entry: &MetaEntry,
) -> (added: Result<(), String>)
    ensures
        match error_of(*entry) {
            Some(error) => added matches Err(e) && e@ == error,
            None => added is Ok && shown(final(contexts)@) == (match *entry {
                MetaEntry::Metadata(meta) => shown(old(contexts)@).push(
                    shown_of(meta, text_in(*current)),
                ),
                _ => shown(old(contexts)@),
            }),
        },
{
    match entry {
        MetaEntry::Unlistable(reason) => Err(joined("Failed to read entry: ", reason.as_str())),
        MetaEntry::Unreadable(reason) => Err(
            joined("Failed to read context meta: ", reason.as_str()),
        ),
        MetaEntry::NoMetadata => Ok(()),
        MetaEntry::Malformed => Ok(()),
        MetaEntry::Metadata(meta) => {
            let is_active = match current {
                Some(name) => same(name.as_str(), meta.name.as_str()),
                None => false,
            };
            let info = DockerContextInfo {
                name: meta.name.clone(),
                description: String::new(),
                docker_endpoint: meta.endpoints.docker.host.clone(),
                is_active,
            };
            assert(info@ == shown_of(*meta, text_in(*current)));
            contexts.push(info);
            assert(shown(contexts@) =~= shown(old(contexts)@).push(
                shown_of(*meta, text_in(*current)),
            ));
            Ok(())
        },
    }
}

/// The contexts, given what was found of the configuration file and of the directory of contexts.
///
/// An entry without metadata is passed over. An entry that cannot be read ends the listing with an
/// error.
pub fn list_contexts(config: &ConfigFile, dir: &ContextsDir) -> (contexts: Result<
    Vec<DockerContextInfo>,
    String,
>)
    ensures
        match *dir {
            ContextsDir::Missing => contexts matches Ok(list) && list@.len() == 0,
            ContextsDir::Unreadable(reason) => contexts matches Err(error) && error@
                == "Failed to read Docker contexts directory: "@ + reason@,
            ContextsDir::Entries(entries) => match contexts {
                Ok(list) => {
                    &&& forall|i: int|
                        0 <= i < entries@.len() ==> error_of(#[trigger] entries@[i]) is None
                    &&& shown(list@) == shown_in(entries@, current_in(*config))
                },
                Err(error) => exists|i: int| #[trigger]
                    first_error_at(entries@, i) && error_of(entries@[i]) == Some(error@),
            },
        },
        *dir matches ContextsDir::Entries(entries) ==> (contexts matches Ok(list) ==> forall|k: int|
            0 <= k < list@.len() ==> {
                &&& (#[trigger] list@[k]).description@.len() == 0
                &&& list@[k].is_active <==> current_in(*config) == Some(list@[k].name@)
                &&& exists|i: int|
                    0 <= i < entries@.len() && (#[trigger] entries@[i] matches MetaEntry::Metadata(
                        meta,
                    ) && list@[k].name@ == meta.name@ && list@[k].docker_endpoint@
                        == meta.endpoints.docker.host@)
            }),
{
    let current = read_current_context(config);
    let mut contexts: Vec<DockerContextInfo> = Vec::new();
    match dir {
        ContextsDir::Missing => Ok(contexts),
        ContextsDir::Unreadable(reason) => Err(
            joined("Failed to read Docker contexts directory: ", reason.as_str()),
        ),
        ContextsDir::Entries(entries) => {
            let mut i: usize = 0;
            assert(shown(contexts@) =~= shown_in(entries@.take(0), current_in(*config)));
            while i < entries.len()
                invariant
                    i <= entries.len(),
                    text_in(current) == current_in(*config),
                    dir matches ContextsDir::Entries(found) && found == entries,
                    forall|j: int| 0 <= j < i ==> error_of(#[trigger] entries@[j]) is None,
                    shown(contexts@) == shown_in(entries@.take(i as int), current_in(*config)),
                decreases entries.len() - i,
            {
                match add_entry(&mut contexts, &current, &entries[i]) {
                    Ok(()) => {},
                    Err(error) => {
                        assert(first_error_at(entries@, i as int));
                        return Err(error);
                    },
                }
                assert(entries@.take(i + 1).drop_last() == entries@.take(i as int));
                i = i + 1;
            }
            assert(entries@.take(i as int) == entries@);
            proof {
                lemma_list_shows_metadata(contexts@, entries@, current_in(*config));
            }
            Ok(contexts)
        },
    }
}

/// The metadata file of the current context, if the configuration file records one.
pub fn current_meta_file(dir: &DockerPath, config: &ConfigFile) -> (file: Option<DockerPath>)
    ensures
        match current_in(*config) {
            Some(name) => file matches Some(f) && f@ == meta_file_in(context_dir_in(dir@, name)),
            None => file is None,
        },
{
    match read_current_context(config) {
        Some(name) => Some(meta_file(&context_dir(dir, name.as_str()))),
        None => None,
    }
}

/// The host of the current context, given what its metadata file holds: nothing, where it could not
/// be read or holds no metadata.
pub fn get_current_context_endpoint(config: &ConfigFile, meta: &Option<ContextMetadata>) -> (host:
    Option<String>)
    ensures
        text_in(host) == endpoint_of(current_in(*config), *meta),
        host is Some <==> current_in(*config) is Some && meta is Some,
        host matches Some(h) ==> (*meta matches Some(m) && h@ == m.endpoints.docker.host@),
{
    match read_current_context(config) {
        Some(_) => match meta {
            Some(found) => Some(found.endpoints.docker.host.clone()),
            None => None,
        },
        None => None,
    }
}

/// Begins the creation of the context `name` for `host`.
pub fn create_context(dir: &DockerPath, name: &str, host: &str) -> (begun: (
    CreateContext,
    CreateAction,
))
    ensures
        begun.0.dir@ == dir@,
        begun.0.name@ == name@,
        begun.0.host@ == host@,
        (begun.0.phase, begun.1@) == create_begin(dir@, name@),
{
    let mut creation = CreateContext {
        dir: dir.copy(),
        name: name.to_owned(),
        host: host.to_owned(),
        phase: CreatePhase::Checking,
    };
    if name.is_empty() {
        creation.phase = CreatePhase::Ended;
        return (creation, CreateAction::Refuse("Context name cannot be empty".to_owned()));
    }
    (creation, CreateAction::CheckFile(meta_file(&context_dir(dir, name))))
}

impl CreateContext {
    /// Ends the creation with an error.
    fn refuse(&mut self, error: String) -> (action: CreateAction)
        ensures
            final(self).dir@ == old(self).dir@,
            final(self).name@ == old(self).name@,
            final(self).host@ == old(self).host@,
            final(self).phase == CreatePhase::Ended,
            action@ == CreateAsk::Refuse(error@),
    {
        self.phase = CreatePhase::Ended;
        CreateAction::Refuse(error)
    }

    /// Hears an event and asks for what comes next.
    pub fn step(&mut self, event: CreateEvent) -> (action: CreateAction)
        ensures
            final(self).dir@ == old(self).dir@,
            final(self).name@ == old(self).name@,
            final(self).host@ == old(self).host@,
            (final(self).phase, action@) == create_step(
                old(self).dir@,
                old(self).name@,
                old(self).host@,
                old(self).phase,
                event,
            ),
            action matches CreateAction::WriteMeta(_, meta) ==> {
                &&& meta.name@ == old(self).name@
                &&& meta.endpoints.docker.host@ == old(self).host@
                &&& meta.endpoints.docker.skip_tls_verify is None
                &&& meta.metadata is None
            },
    {
        match (self.phase, event) {
            (CreatePhase::Checking, CreateEvent::Checked(exists)) => if exists {
                let named = joined("Context '", self.name.as_str());
                self.refuse(joined(named.as_str(), "' already exists"))
            } else {
                self.phase = CreatePhase::MakingDir;
                CreateAction::MakeDir(context_dir(&self.dir, self.name.as_str()))
            },
            (CreatePhase::MakingDir, CreateEvent::MadeDir(made)) => match made {
                Ok(_) => {
                    self.phase = CreatePhase::Writing;
                    let meta = ContextMetadata {
                        name: self.name.clone(),
                        metadata: None,
                        endpoints: Endpoints {
                            docker: DockerEndpoint {
                                host: self.host.clone(),
                                skip_tls_verify: None,
                            },
                        },
                    };
                    CreateAction::WriteMeta(
                        meta_file(&context_dir(&self.dir, self.name.as_str())),
                        meta,
                    )
                },
                Err(reason) => self.refuse(failure(Step::CreateContextDir, reason.as_str())),
            },
            (CreatePhase::Writing, CreateEvent::Written(written)) => match written {
                MetaWrite::Done => {
                    self.phase = CreatePhase::Ended;
                    CreateAction::Done
                },
                MetaWrite::NotSerialized(reason) => {
                    self.refuse(failure(Step::SerializeMeta, reason.as_str()))
                },
                MetaWrite::NotWritten(reason) => {
                    self.refuse(failure(Step::WriteMeta, reason.as_str()))
                },
            },
            _ => CreateAction::Ignore,
        }
    }
}

/// The text to write to the configuration file once the context `name` is removed, if it has to
/// change: only a configuration that records `name` as the current context does.
pub fn forget_removed_context(config: &ConfigFile, name: &str) -> (written: Result<
    Option<String>,
    String,
>)
    ensures
        match written {
            Ok(Some(text)) => {
                &&& current_in(*config) == Some(name@)
                &&& config_in(*config) matches Ok(before)
                &&& text@ == json_pretty(without_current(before))
                &&& reads_back(text@, without_current(before))
                &&& parsed_config(text@) is Ok
                &&& current_in_text(text@) is None
                &&& float_free(before) ==> parsed_config(text@) == Ok::<Json, Seq<char>>(
                    without_current(before),
                )
            },
            Ok(None) => current_in(*config) != Some(name@),
            Err(_) => false,
        },
{
    match read_current_context(config) {
        Some(current) => if same(current.as_str(), name) {
            Ok(Some(clear_current_context(config)?))
        } else {
            Ok(None)
        },
        None => Ok(None),
    }
}

/// Begins the removal of the context `name`.
pub fn remove_context(dir: &DockerPath, name: &str) -> (begun: (RemoveContext, RemoveAction))
    ensures
        begun.0.dir@ == dir@,
        begun.0.name@ == name@,
        begun.0.phase == RemovePhase::Checking,
        begun.1@ == RemoveAsk::CheckDir(context_dir_in(dir@, name@)),
{
    let removal = RemoveContext {
        dir: dir.copy(),
        name: name.to_owned(),
        phase: RemovePhase::Checking,
    };
    (removal, RemoveAction::CheckDir(context_dir(dir, name)))
}

impl RemoveContext {
    /// Goes on to a phase with an action.
    fn go(&mut self, phase: RemovePhase, action: RemoveAction) -> (asked: RemoveAction)
        ensures
            final(self).dir@ == old(self).dir@,
            final(self).name@ == old(self).name@,
            final(self).phase == phase,
            asked == action,
    {
        self.phase = phase;
        action
    }

    /// Hears an event and asks for what comes next.
    ///
    /// Once a text that is asked to be written stands in the configuration file, there is no current
    /// context.
    pub fn step(&mut self, event: RemoveEvent) -> (action: RemoveAction)
        ensures
            final(self).dir@ == old(self).dir@,
            final(self).name@ == old(self).name@,
            (final(self).phase, action@) == remove_step(
                old(self).dir@,
                old(self).name@,
                old(self).phase,
                event,
            ),
            action matches RemoveAction::WriteConfig(text) ==> {
                &&& current_in_text(text@) is None
                &&& event matches RemoveEvent::ConfigRead(config)
                &&& reads_back(text@, without_current(config_in(config)->Ok_0))
                &&& parsed_config(text@) is Ok
                &&& float_free(config_in(config)->Ok_0) ==> parsed_config(text@) == Ok::<
                    Json,
                    Seq<char>,
                >(without_current(config_in(config)->Ok_0))
            },
    {
        match (self.phase, event) {
            (RemovePhase::Checking, RemoveEvent::Checked(exists)) => if exists {
                let path = context_dir(&self.dir, self.name.as_str());
                self.go(RemovePhase::Removing, RemoveAction::RemoveDir(path))
            } else {
                let named = joined("Context '", self.name.as_str());
                self.go(
                    RemovePhase::Ended,
                    RemoveAction::Refuse(joined(named.as_str(), "' not found")),
                )
            },
            (RemovePhase::Removing, RemoveEvent::Removed(removed)) => match removed {
                Ok(_) => self.go(RemovePhase::Reading, RemoveAction::ReadConfig),
                Err(reason) => self.go(
                    RemovePhase::Ended,
                    RemoveAction::Refuse(failure(Step::RemoveContextDir, reason.as_str())),
                ),
            },
            (RemovePhase::Reading, RemoveEvent::ConfigRead(config)) => {
                match forget_removed_context(&config, self.name.as_str()) {
                    Ok(Some(text)) => self.go(
                        RemovePhase::Writing,
                        RemoveAction::WriteConfig(text),
                    ),
                    Ok(None) => self.go(RemovePhase::Ended, RemoveAction::Done),
                    Err(error) => self.go(RemovePhase::Ended, RemoveAction::Refuse(error)),
                }
            },
            (RemovePhase::Writing, RemoveEvent::ConfigWritten(written)) => match written {
                Ok(_) => self.go(RemovePhase::Ended, RemoveAction::Done),
                Err(reason) => self.go(
                    RemovePhase::Ended,
                    RemoveAction::Refuse(failure(Step::WriteConfig, reason.as_str())),
                ),
            },
            _ => RemoveAction::Ignore,
        }
    }
}

// ---- laws ----

/// What is shown of a context is the name and the host of the docker endpoint in its metadata, whatever
/// else the metadata holds; it has no description, and it is active exactly when its name is that of
/// the current context.
pub proof fn law_metadata_is_shown(meta: ContextMetadata, current: Option<Seq<char>>)
    ensures
        shown_of(meta, current).name == meta.name@,
        shown_of(meta, current).docker_endpoint == meta.endpoints.docker.host@,
        shown_of(meta, current).description.len() == 0,
        shown_of(meta, current).is_active <==> current is Some && current->Some_0 == meta.name@,
{
}

/// Every context in the list shows as its endpoint exactly the host of the docker endpoint in the
/// metadata that it comes from, and as its name exactly the name there, whatever the other members of
/// the metadata hold.
pub proof fn law_shown_as_in_the_metadata(
    entries: Seq<MetaEntry>,
    current: Option<Seq<char>>,
    k: int,
)
    requires
        0 <= k < shown_in(entries, current).len(),
    ensures
        exists|i: int|
            0 <= i < entries.len() && (#[trigger] entries[i] matches MetaEntry::Metadata(meta)
                && shown_in(entries, current)[k].name == meta.name@ && shown_in(
                entries,
                current,
            )[k].docker_endpoint == meta.endpoints.docker.host@ && shown_in(
                entries,
                current,
            )[k].description.len() == 0 && shown_in(entries, current)[k].is_active == (current
                == Some(meta.name@))),
{
    law_nothing_else_is_shown(entries, current, k);
    let i = choose|i: int|
        0 <= i < entries.len() && (#[trigger] entries[i] matches MetaEntry::Metadata(meta)
            && shown_in(entries, current)[k] == shown_of(meta, current));
    assert(entries[i] is Metadata);
}

/// No entries show no contexts. One more entry with metadata shows one more context, the last, with
/// the name and the host that the metadata holds; one more entry without metadata shows nothing more.
/// What was shown before stays where it was.
pub proof fn law_list_grows(
    entries: Seq<MetaEntry>,
    entry: MetaEntry,
    current: Option<Seq<char>>,
)
    ensures
        shown_in(Seq::empty(), current).len() == 0,
        entry matches MetaEntry::Metadata(meta) ==> {
            let more = shown_in(entries.push(entry), current);
            &&& more.len() == shown_in(entries, current).len() + 1
            &&& more.drop_last() == shown_in(entries, current)
            &&& more.last().name == meta.name@
            &&& more.last().docker_endpoint == meta.endpoints.docker.host@
            &&& more.last().description.len() == 0
            &&& more.last().is_active == (current == Some(meta.name@))
        },
        !(entry is Metadata) ==> shown_in(entries.push(entry), current) == shown_in(
            entries,
            current,
        ),
{
    assert(entries.push(entry).drop_last() =~= entries);
    if let MetaEntry::Metadata(meta) = entry {
        assert(shown_in(entries.push(entry), current).drop_last() =~= shown_in(entries, current));
    }
}

/// A list that shows the entries of a directory shows nothing but names and hosts that stand in
/// metadata.
proof fn lemma_list_shows_metadata(
    list: Seq<DockerContextInfo>,
    entries: Seq<MetaEntry>,
    current: Option<Seq<char>>,
)
    requires
        shown(list) == shown_in(entries, current),
    ensures
        forall|k: int|
            0 <= k < list.len() ==> {
                &&& (#[trigger] list[k]).description@.len() == 0
                &&& list[k].is_active <==> current == Some(list[k].name@)
                &&& exists|i: int|
                    0 <= i < entries.len() && (#[trigger] entries[i] matches MetaEntry::Metadata(
                        meta,
                    ) && list[k].name@ == meta.name@ && list[k].docker_endpoint@
                        == meta.endpoints.docker.host@)
            },
{
    let all = shown_in(entries, current);
    assert forall|k: int| 0 <= k < list.len() implies {
        &&& (#[trigger] list[k]).description@.len() == 0
        &&& list[k].is_active <==> current == Some(list[k].name@)
        &&& exists|i: int|
            0 <= i < entries.len() && (#[trigger] entries[i] matches MetaEntry::Metadata(meta)
                && list[k].name@ == meta.name@ && list[k].docker_endpoint@
                == meta.endpoints.docker.host@)
    } by {
        law_shown_as_in_the_metadata(entries, current, k);
        assert(all[k] == list[k]@);
    }
}

/// The listing ends with an error exactly at an entry that could not be listed or whose metadata file
/// could not be read, and the error gives the reason; the first such entry is the one that counts.
pub proof fn law_entry_errors(
    entry: MetaEntry,
    reason: String,
    entries: Seq<MetaEntry>,
    i: int,
)
    ensures
        error_of(entry) is Some <==> entry is Unlistable || entry is Unreadable,
        error_of(MetaEntry::Unlistable(reason)) == Some("Failed to read entry: "@ + reason@),
        error_of(MetaEntry::Unreadable(reason)) == Some("Failed to read context meta: "@ + reason@),
        first_error_at(entries, i) <==> 0 <= i < entries.len() && (entries[i] is Unlistable
            || entries[i] is Unreadable) && forall|j: int|
            0 <= j < i ==> !(#[trigger] entries[j] is Unlistable) && !(entries[j] is Unreadable),
{
    if first_error_at(entries, i) {
        assert forall|j: int| 0 <= j < i implies !(#[trigger] entries[j] is Unlistable) && !(
        entries[j] is Unreadable) by {
            assert(error_of(entries[j]) is None);
        }
    }
}

/// The host that is looked up is that of the docker endpoint in the metadata of the current context,
/// whatever else the metadata holds; without a current context or without its metadata there is none.
pub proof fn law_endpoint_is_the_host(name: Seq<char>, meta: ContextMetadata)
    ensures
        endpoint_of(Some(name), Some(meta)) == Some(meta.endpoints.docker.host@),
        endpoint_of(None, Some(meta)) is None,
        endpoint_of(Some(name), None) is None,
        endpoint_of(None, None) is None,
{
}

/// What is modelled of a shown context, of metadata and of what is asked is what they hold.
pub proof fn law_models_hold_the_fields(
    info: DockerContextInfo,
    infos: Seq<DockerContextInfo>,
    meta: ContextMetadata,
    path: DockerPath,
    text: String,
)
    ensures
        info@.name == info.name@ && info@.description == info.description@,
        info@.docker_endpoint == info.docker_endpoint@ && info@.is_active == info.is_active,
        shown(infos).len() == infos.len(),
        forall|i: int| 0 <= i < infos.len() ==> #[trigger] shown(infos)[i] == infos[i]@,
        meta@.name == meta.name@ && meta@.host == meta.endpoints.docker.host@,
        meta@.skip_tls_verify == meta.endpoints.docker.skip_tls_verify,
        meta@.metadata is Some <==> meta.metadata is Some,
        meta.metadata matches Some(value) ==> meta@.metadata == Some(json_of(value)),
        CreateAction::CheckFile(path)@ == CreateAsk::CheckFile(path@),
        CreateAction::MakeDir(path)@ == CreateAsk::MakeDir(path@),
        CreateAction::WriteMeta(path, meta)@ == CreateAsk::WriteMeta(path@, meta@),
        CreateAction::Done@ == CreateAsk::Done,
        CreateAction::Refuse(text)@ == CreateAsk::Refuse(text@),
        CreateAction::Ignore@ == CreateAsk::Ignore,
        RemoveAction::CheckDir(path)@ == RemoveAsk::CheckDir(path@),
        RemoveAction::RemoveDir(path)@ == RemoveAsk::RemoveDir(path@),
        RemoveAction::ReadConfig@ == RemoveAsk::ReadConfig,
        RemoveAction::WriteConfig(text)@ == RemoveAsk::WriteConfig(text@),
        RemoveAction::Done@ == RemoveAsk::Done,
        RemoveAction::Refuse(text)@ == RemoveAsk::Refuse(text@),
        RemoveAction::Ignore@ == RemoveAsk::Ignore,
{
}

/// Creation begins by looking for the metadata file of a context of that name, and is refused at once
/// for an empty name.
pub proof fn law_creation_begins(dir: Seq<Seq<char>>, name: Seq<char>)
    ensures
        name.len() > 0 ==> create_begin(dir, name) == (
            CreatePhase::Checking,
            CreateAsk::CheckFile(dir + seq!["contexts"@, "meta"@, name, "meta.json"@]),
        ),
        name.len() == 0 ==> create_begin(dir, name) == (
            CreatePhase::Ended,
            CreateAsk::Refuse("Context name cannot be empty"@),
        ),
{
    law_places(dir, name);
}

/// The directory of a context is made exactly when no metadata file was there; the metadata is written
/// exactly when the directory was made, in that directory, with the given name and host and nothing
/// else; the creation is done exactly when it was written.
pub proof fn law_creation_goes_on(
    dir: Seq<Seq<char>>,
    name: Seq<char>,
    host: Seq<char>,
    phase: CreatePhase,
    event: CreateEvent,
)
    ensures
        ({
            let (next, ask) = create_step(dir, name, host, phase, event);
            &&& ask is MakeDir <==> phase is Checking && event == CreateEvent::Checked(false)
            &&& ask matches CreateAsk::MakeDir(path) ==> next is MakingDir && path == dir + seq![
                "contexts"@,
                "meta"@,
                name,
            ]
            &&& ask is WriteMeta <==> phase is MakingDir && (event matches CreateEvent::MadeDir(made)
                && made is Ok)
            &&& ask matches CreateAsk::WriteMeta(path, meta) ==> {
                &&& next is Writing
                &&& path == dir + seq!["contexts"@, "meta"@, name, "meta.json"@]
                &&& meta.name == name
                &&& meta.host == host
                &&& meta.metadata is None
                &&& meta.skip_tls_verify is None
            }
            &&& ask is Done <==> phase is Writing && event == CreateEvent::Written(MetaWrite::Done)
            &&& ask is Done ==> next is Ended
            &&& !(ask is CheckFile)
        }),
{
    law_places(dir, name);
}

/// The creation of a context is refused exactly when its metadata file is there already, or a step
/// failed, and the report gives the name of the context or the reason; what was not asked changes
/// nothing.
pub proof fn law_creation_is_refused(
    dir: Seq<Seq<char>>,
    name: Seq<char>,
    host: Seq<char>,
    phase: CreatePhase,
    event: CreateEvent,
)
    ensures
        ({
            let (next, ask) = create_step(dir, name, host, phase, event);
            &&& phase is Checking && event == CreateEvent::Checked(true) ==> ask
                == CreateAsk::Refuse("Context '"@ + name + "' already exists"@)
            &&& phase is MakingDir ==> (event matches CreateEvent::MadeDir(Err(reason)) ==> ask
                == CreateAsk::Refuse("Failed to create context directory: "@ + reason@))
            &&& phase is Writing ==> (event matches CreateEvent::Written(
                MetaWrite::NotSerialized(reason),
            ) ==> ask == CreateAsk::Refuse("Failed to serialize context metadata: "@ + reason@))
            &&& phase is Writing ==> (event matches CreateEvent::Written(
                MetaWrite::NotWritten(reason),
            ) ==> ask == CreateAsk::Refuse("Failed to write context metadata: "@ + reason@))
            &&& ask is Refuse ==> next is Ended && !(event is MadeDir && event->MadeDir_0 is Ok)
                && event != CreateEvent::Checked(false) && event != CreateEvent::Written(
                MetaWrite::Done,
            )
            &&& ask is Ignore <==> !(phase is Checking && event is Checked) && !(phase is MakingDir
                && event is MadeDir) && !(phase is Writing && event is Written)
            &&& ask is Ignore ==> next == phase
        }),
{
}

/// The directory of a context is removed exactly when it is there, and it is that of the given name;
/// the configuration is read exactly when it was removed; the removal is done exactly when nothing is
/// left to write.
pub proof fn law_removal_goes_on(
    dir: Seq<Seq<char>>,
    name: Seq<char>,
    phase: RemovePhase,
    event: RemoveEvent,
)
    ensures
        ({
            let (next, ask) = remove_step(dir, name, phase, event);
            &&& ask is RemoveDir <==> phase is Checking && event == RemoveEvent::Checked(true)
            &&& ask matches RemoveAsk::RemoveDir(path) ==> next is Removing && path == dir + seq![
                "contexts"@,
                "meta"@,
                name,
            ]
            &&& ask is ReadConfig <==> phase is Removing && (event matches RemoveEvent::Removed(
                removed,
            ) && removed is Ok)
            &&& ask is ReadConfig ==> next is Reading
            &&& ask is Done ==> next is Ended
            &&& phase is Writing ==> (event matches RemoveEvent::ConfigWritten(Ok(_)) ==> ask is Done)
            &&& !(ask is CheckDir)
            &&& ask is Ignore <==> !(phase is Checking && event is Checked) && !(phase is Removing
                && event is Removed) && !(phase is Reading && event is ConfigRead) && !(
            phase is Writing && event is ConfigWritten)
            &&& ask is Ignore ==> next == phase
        }),
{
    law_places(dir, name);
}

/// Once its directory is removed, a context is forgotten by the configuration exactly when the text of
/// the configuration file parses to an object that names it as the current context: then that object
/// is written, without that one member. Otherwise nothing is written.
pub proof fn law_removed_context_is_forgotten(
    dir: Seq<Seq<char>>,
    name: Seq<char>,
    text: String,
    reason: String,
)
    ensures
        ({
            let (next, ask) = remove_step(
                dir,
                name,
                RemovePhase::Reading,
                RemoveEvent::ConfigRead(ConfigFile::Content(text)),
            );
            &&& json_parse(text@) matches Ok(Json::Object(members)) ==> if members.contains_key(
                "currentContext"@,
            ) && members["currentContext"@] == Json::Text(name) {
                next is Writing && ask == RemoveAsk::WriteConfig(
                    json_pretty(Json::Object(members.remove("currentContext"@))),
                )
            } else {
                next is Ended && ask is Done
            }
            &&& json_parse(text@) matches Ok(j) ==> (!(j is Object) ==> next is Ended
                && ask is Done)
            &&& json_parse(text@) is Err ==> next is Ended && ask is Done
        }),
        remove_step(
            dir,
            name,
            RemovePhase::Reading,
            RemoveEvent::ConfigRead(ConfigFile::Missing),
        ) == (RemovePhase::Ended, RemoveAsk::Done),
        remove_step(
            dir,
            name,
            RemovePhase::Reading,
            RemoveEvent::ConfigRead(ConfigFile::Unreadable(reason)),
        ) == (RemovePhase::Ended, RemoveAsk::Done),
{
}

/// The removal of a context is refused exactly when its directory is not there, or a step failed, and
/// the report gives the name of the context or the reason.
pub proof fn law_removal_is_refused(
    dir: Seq<Seq<char>>,
    name: Seq<char>,
    phase: RemovePhase,
    event: RemoveEvent,
)
    ensures
        ({
            let (next, ask) = remove_step(dir, name, phase, event);
            &&& phase is Checking && event == RemoveEvent::Checked(false) ==> ask
                == RemoveAsk::Refuse("Context '"@ + name + "' not found"@)
            &&& phase is Removing ==> (event matches RemoveEvent::Removed(Err(reason)) ==> ask
                == RemoveAsk::Refuse("Failed to remove context directory: "@ + reason@))
            &&& phase is Writing ==> (event matches RemoveEvent::ConfigWritten(Err(reason)) ==> ask
                == RemoveAsk::Refuse("Failed to write Docker config: "@ + reason@))
            &&& ask is Refuse ==> next is Ended && !(phase is Reading) && event
                != RemoveEvent::Checked(true) && !(event is Removed && event->Removed_0 is Ok) && !(
            event is ConfigWritten && event->ConfigWritten_0 is Ok)
        }),
{
}

/// The list shows every context whose metadata was found.
pub proof fn law_every_context_is_shown(
    entries: Seq<MetaEntry>,
    current: Option<Seq<char>>,
    i: int,
)
    requires
        0 <= i < entries.len(),
        entries[i] is Metadata,
    ensures
        shown_in(entries, current).contains(shown_of(entries[i]->Metadata_0, current)),
    decreases entries.len(),
{
    let all = shown_in(entries, current);
    let before = shown_in(entries.drop_last(), current);
    if i == entries.len() - 1 {
        assert(all.last() == shown_of(entries[i]->Metadata_0, current));
    } else {
        law_every_context_is_shown(entries.drop_last(), current, i);
        let k = choose|k: int|
            0 <= k < before.len() && before[k] == shown_of(entries[i]->Metadata_0, current);
        assert(all[k] == before[k]);
    }
}

/// The list shows the name and the host of every context whose metadata was found.
pub proof fn law_every_host_is_shown(entries: Seq<MetaEntry>, current: Option<Seq<char>>, i: int)
    requires
        0 <= i < entries.len(),
    ensures
        entries[i] matches MetaEntry::Metadata(meta) ==> exists|k: int|
            0 <= k < shown_in(entries, current).len() && (#[trigger] shown_in(
                entries,
                current,
            )[k]).name == meta.name@ && shown_in(entries, current)[k].docker_endpoint
                == meta.endpoints.docker.host@,
{
    if let MetaEntry::Metadata(meta) = entries[i] {
        law_every_context_is_shown(entries, current, i);
        let all = shown_in(entries, current);
        let k = choose|k: int| 0 <= k < all.len() && all[k] == shown_of(meta, current);
        assert(all[k].name == meta.name@);
    }
}

/// The list shows nothing but contexts whose metadata was found.
pub proof fn law_nothing_else_is_shown(
    entries: Seq<MetaEntry>,
    current: Option<Seq<char>>,
    k: int,
)
    requires
        0 <= k < shown_in(entries, current).len(),
    ensures
        exists|i: int|
            0 <= i < entries.len() && (#[trigger] entries[i] matches MetaEntry::Metadata(meta)
                && shown_in(entries, current)[k] == shown_of(meta, current)),
    decreases entries.len(),
{
    let before = shown_in(entries.drop_last(), current);
    if k < before.len() {
        law_nothing_else_is_shown(entries.drop_last(), current, k);
        let i = choose|i: int|
            0 <= i < entries.drop_last().len() && (#[trigger] entries.drop_last()[i] matches
                MetaEntry::Metadata(meta) && before[k] == shown_of(meta, current));
        assert(entries[i] == entries.drop_last()[i]);
    } else {
        assert(entries[entries.len() - 1] is Metadata);
    }
}

/// Of the contexts in the list, exactly those that bear the name of the current context are active.
pub proof fn law_active_is_current(
    entries: Seq<MetaEntry>,
    current: Option<Seq<char>>,
    k: int,
)
    requires
        0 <= k < shown_in(entries, current).len(),
    ensures
        shown_in(entries, current)[k].is_active <==> current == Some(
            shown_in(entries, current)[k].name,
        ),
{
    law_nothing_else_is_shown(entries, current, k);
}

/// An entry without metadata makes no difference to the list.
pub proof fn law_other_entries_are_passed_over(
    before: Seq<MetaEntry>,
    entry: MetaEntry,
    after: Seq<MetaEntry>,
    current: Option<Seq<char>>,
)
    requires
        !(entry is Metadata),
    ensures
        shown_in(before.push(entry) + after, current) == shown_in(before + after, current),
    decreases after.len(),
{
    let with = before.push(entry) + after;
    let without = before + after;
    if after.len() == 0 {
        assert(with.drop_last() =~= before);
        assert(without =~= before);
    } else {
        law_other_entries_are_passed_over(before, entry, after.drop_last(), current);
        assert(with.drop_last() =~= before.push(entry) + after.drop_last());
        assert(without.drop_last() =~= before + after.drop_last());
    }
}

/// What the outside answers to the creation of a context.
pub ghost struct CreateWorld {
    pub exists: bool,
    pub made: Result<(), String>,
    pub written: MetaWrite,
}

/// All that the creation of a context asks, in order, one step after another.
pub open spec fn create_run(
    dir: Seq<Seq<char>>,
    name: Seq<char>,
    host: Seq<char>,
    world: CreateWorld,
    at: (CreatePhase, CreateAsk),
    steps: nat,
) -> Seq<CreateAsk>
    decreases steps,
{
    if steps == 0 || at.0 == CreatePhase::Ended {
        seq![at.1]
    } else {
        let event = match at.1 {
            CreateAsk::CheckFile(_) => CreateEvent::Checked(world.exists),
            CreateAsk::MakeDir(_) => CreateEvent::MadeDir(world.made),
            _ => CreateEvent::Written(world.written),
        };
        seq![at.1] + create_run(
            dir,
            name,
            host,
            world,
            create_step(dir, name, host, at.0, event),
            (steps - 1) as nat,
        )
    }
}

/// Creating a context asks for this, in order, whatever the outside answers. Nothing is made for an
/// empty name or a context that exists, and nothing is written unless the directory is made.
pub proof fn law_creation(
    dir: Seq<Seq<char>>,
    name: Seq<char>,
    host: Seq<char>,
    world: CreateWorld,
    steps: nat,
)
    requires
        steps >= 3,
    ensures
        ({
            let asks = create_run(dir, name, host, world, create_begin(dir, name), steps);
            let context = context_dir_in(dir, name);
            let check = CreateAsk::CheckFile(meta_file_in(context));
            let make = CreateAsk::MakeDir(context);
            let write = CreateAsk::WriteMeta(meta_file_in(context), new_meta(name, host));
            if name.len() == 0 {
                asks == seq![CreateAsk::Refuse("Context name cannot be empty"@)]
            } else if world.exists {
                asks == seq![
                    check,
                    CreateAsk::Refuse("Context '"@ + name + "' already exists"@),
                ]
            } else if world.made is Err {
                asks == seq![
                    check,
                    make,
                    CreateAsk::Refuse(report_of(Step::CreateContextDir) + world.made->Err_0@),
                ]
            } else {
                asks.len() == 4 && asks.take(3) == seq![check, make, write] && (asks[3] is Done
                    <==> world.written is Done) && (asks[3] is Done || asks[3] is Refuse)
            }
        }),
{
    reveal_with_fuel(create_run, 4);
    let asks = create_run(dir, name, host, world, create_begin(dir, name), steps);
    let context = context_dir_in(dir, name);
    if name.len() > 0 && !world.exists && world.made is Ok {
        assert(asks.take(3) =~= seq![
            CreateAsk::CheckFile(meta_file_in(context)),
            CreateAsk::MakeDir(context),
            CreateAsk::WriteMeta(meta_file_in(context), new_meta(name, host)),
        ]);
    }
}

/// What the outside answers to the removal of a context.
pub ghost struct RemoveWorld {
    pub exists: bool,
    pub removed: Result<(), String>,
    pub config: ConfigFile,
    pub written: Result<(), String>,
}

/// All that the removal of a context asks, in order, one step after another.
pub open spec fn remove_run(
    dir: Seq<Seq<char>>,
    name: Seq<char>,
    world: RemoveWorld,
    at: (RemovePhase, RemoveAsk),
    steps: nat,
) -> Seq<RemoveAsk>
    decreases steps,
{
    if steps == 0 || at.0 == RemovePhase::Ended {
        seq![at.1]
    } else {
        let event = match at.1 {
            RemoveAsk::CheckDir(_) => RemoveEvent::Checked(world.exists),
            RemoveAsk::RemoveDir(_) => RemoveEvent::Removed(world.removed),
            RemoveAsk::ReadConfig => RemoveEvent::ConfigRead(world.config),
            _ => RemoveEvent::ConfigWritten(world.written),
        };
        seq![at.1] + remove_run(
            dir,
            name,
            world,
            remove_step(dir, name, at.0, event),
            (steps - 1) as nat,
        )
    }
}

/// Removing a context asks for this, in order, whatever the outside answers. A context that does not
/// exist is not removed, and the configuration is written exactly when the context that was removed
/// is the current one.
pub proof fn law_removal(
    dir: Seq<Seq<char>>,
    name: Seq<char>,
    world: RemoveWorld,
    steps: nat,
)
    requires
        steps >= 4,
    ensures
        ({
            let context = context_dir_in(dir, name);
            let begin = (RemovePhase::Checking, RemoveAsk::CheckDir(context));
            let asks = remove_run(dir, name, world, begin, steps);
            let removed = seq![
                RemoveAsk::CheckDir(context),
                RemoveAsk::RemoveDir(context),
                RemoveAsk::ReadConfig,
            ];
            if !world.exists {
                asks == seq![
                    RemoveAsk::CheckDir(context),
                    RemoveAsk::Refuse("Context '"@ + name + "' not found"@),
                ]
            } else if world.removed is Err {
                asks == seq![
                    RemoveAsk::CheckDir(context),
                    RemoveAsk::RemoveDir(context),
                    RemoveAsk::Refuse(
                        report_of(Step::RemoveContextDir) + world.removed->Err_0@,
                    ),
                ]
            } else if current_in(world.config) == Some(name) {
                asks == removed + seq![
                    RemoveAsk::WriteConfig(
                        json_pretty(without_current(config_in(world.config)->Ok_0)),
                    ),
                    match world.written {
                        Ok(_) => RemoveAsk::Done,
                        Err(reason) => RemoveAsk::Refuse(report_of(Step::WriteConfig) + reason@),
                    },
                ]
            } else {
                asks == removed + seq![RemoveAsk::Done]
            }
        }),
{
    reveal_with_fuel(remove_run, 5);
}

/// A context that was created is shown with its name and its host, is active exactly when it is the
/// current one, and its host is then the one that is looked up.
pub proof fn law_created_context_is_found(
    meta: ContextMetadata,
    name: Seq<char>,
    host: Seq<char>,
    current: Option<Seq<char>>,
)
    requires
        meta@ == new_meta(name, host),
    ensures
        shown_of(meta, current) == (Shown {
            name,
            description: Seq::empty(),
            docker_endpoint: host,
            is_active: current == Some(name),
        }),
        endpoint_of(Some(name), Some(meta)) == Some(host),
{
}

/// Once a context was created and then made the current one, in a file that held an object or in none,
/// its host is the one that is looked up, whatever the host is.
pub proof fn law_created_and_set_context_is_the_endpoint(
    meta: ContextMetadata,
    name: Seq<char>,
    host: Seq<char>,
    config: Json,
    text: Seq<char>,
)
    requires
        meta@ == new_meta(name, host),
        config is Object,
        nested_within(config, max_nesting()),
    ensures
        reads_back(text, with_current(config, name)) ==> endpoint_of(
            current_in_text(text),
            Some(meta),
        ) == Some(host),
{
    law_read_after_set(config, name, text);
}

} // verus!
