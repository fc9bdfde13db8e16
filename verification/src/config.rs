//! The configuration file, in which Docker records the current context.

use vstd::prelude::*;

use crate::json;
use crate::json::{
    float_free, float_free_within, json_of, json_parse, json_pretty, max_nesting, nested_within,
    no_members, reads_back, Json,
};
use crate::text::joined;

verus! {

/// What was found of the configuration file.
#[derive(Debug)]
pub enum ConfigFile {
    /// There is no such file.
    Missing,
    /// The file could not be read, for this reason.
    Unreadable(String),
    /// The file holds this text.
    Content(String),
}

// ---- models ----

/// The configuration in a text, or the error that is reported.
pub open spec fn parsed_config(text: Seq<char>) -> Result<Json, Seq<char>> {
    match json_parse(text) {
        Ok(j) => Ok(j),
        Err(message) => Err("Failed to parse Docker config: "@ + message),
    }
}

/// The configuration in a file, or the error that is reported. A missing file is an empty
/// configuration.
pub open spec fn config_in(file: ConfigFile) -> Result<Json, Seq<char>> {
    match file {
        ConfigFile::Missing => Ok(Json::Object(no_members())),
        ConfigFile::Unreadable(reason) => Err("Failed to read Docker config: "@ + reason@),
        ConfigFile::Content(text) => parsed_config(text@),
    }
}

/// The name of the current context that a configuration records.
pub open spec fn current_of(config: Json) -> Option<Seq<char>> {
    match config {
        Json::Object(members) => if members.contains_key("currentContext"@) {
            match members["currentContext"@] {
                Json::Text(name) => Some(name),
                _ => None,
            }
        } else {
            None
        },
        _ => None,
    }
}

/// The name of the current context that a file records. A file that cannot be read or parsed records
/// none.
pub open spec fn current_in(file: ConfigFile) -> Option<Seq<char>> {
    match config_in(file) {
        Ok(config) => current_of(config),
        Err(_) => None,
    }
}

/// The name of the current context that a text records, as the content of a file.
pub open spec fn current_in_text(text: Seq<char>) -> Option<Seq<char>> {
    match parsed_config(text) {
        Ok(config) => current_of(config),
        Err(_) => None,
    }
}

/// `config` with `name` as the current context. What is not an object stays as it is.
pub open spec fn with_current(config: Json, name: Seq<char>) -> Json {
    match config {
        Json::Object(members) => Json::Object(
            members.insert("currentContext"@, Json::Text(name)),
        ),
        _ => config,
    }
}

/// `config` without a current context. What is not an object stays as it is.
pub open spec fn without_current(config: Json) -> Json {
    match config {
        Json::Object(members) => Json::Object(members.remove("currentContext"@)),
        _ => config,
    }
}

// ---- functions ----

/// The configuration in a file.
pub fn read_config_json(file: &ConfigFile) -> (config: Result<serde_json::Value, String>)
    ensures
        match config {
            Ok(value) => config_in(*file) == Ok::<Json, Seq<char>>(json_of(value)),
            Err(error) => config_in(*file) == Err::<Json, Seq<char>>(error@),
        },
        config matches Ok(value) ==> nested_within(json_of(value), max_nesting()),
        *file matches ConfigFile::Content(content) ==> match json_parse(content@) {
            Ok(j) => config matches Ok(value) && json_of(value) == j,
            Err(message) => config matches Err(error) && error@
                == "Failed to parse Docker config: "@ + message,
        },
{
    match file {
        ConfigFile::Missing => Ok(json::from_map(json::new_map())),
        ConfigFile::Unreadable(reason) => Err(
            joined("Failed to read Docker config: ", reason.as_str()),
        ),
        ConfigFile::Content(text) => match json::from_str(text.as_str()) {
            Ok(value) => Ok(value),
            Err(message) => Err(joined("Failed to parse Docker config: ", message.as_str())),
        },
    }
}

/// The text to write to the configuration file for a configuration.
pub fn write_config_json(config: &serde_json::Value) -> (written: Result<String, String>)
    ensures
        written matches Ok(text) && text@ == json_pretty(json_of(*config)) && reads_back(
            text@,
            json_of(*config),
        ),
{
    match json::to_string_pretty(config) {
        Ok(text) => Ok(text),
        Err(message) => Err(joined("Failed to serialize Docker config: ", message.as_str())),
    }
}

/// The name of the current context that a configuration records.
pub fn current_context(config: &serde_json::Value) -> (name: Option<String>)
    ensures
        match name {
            Some(n) => current_of(json_of(*config)) == Some(n@),
            None => current_of(json_of(*config)) is None,
        },
{
    match json::get(config, "currentContext") {
        Some(member) => match json::as_str(member) {
            Some(name) => Some(name.to_owned()),
            None => None,
        },
        None => None,
    }
}

/// Records `name` as the current context in a configuration.
pub fn insert_current_context(config: &mut serde_json::Value, name: &str)
    ensures
        json_of(*final(config)) == with_current(json_of(*old(config)), name@),
{
    if let Some(members) = json::as_object_mut(config) {
        json::insert(members, "currentContext".to_owned(), json::from_text(name));
    }
}

/// Removes the current context from a configuration.
pub fn remove_current_context(config: &mut serde_json::Value)
    ensures
        json_of(*final(config)) == without_current(json_of(*old(config))),
{
    if let Some(members) = json::as_object_mut(config) {
        json::remove(members, "currentContext");
    }
}

/// The name of the current context that a file records.
pub fn read_current_context(file: &ConfigFile) -> (name: Option<String>)
    ensures
        match name {
            Some(n) => current_in(*file) == Some(n@),
            None => current_in(*file) is None,
        },
        *file matches ConfigFile::Content(content) ==> (json_parse(content@) matches Ok(
            Json::Object(members),
        ) ==> match name {
            Some(n) => members.contains_key("currentContext"@) && members["currentContext"@]
                == Json::Text(n@),
            None => members.contains_key("currentContext"@) ==> !(
            members["currentContext"@] is Text),
        }),
{
    match read_config_json(file) {
        Ok(config) => current_context(&config),
        Err(_) => None,
    }
}

/// The text to write to the configuration file so that `name` is the current context.
///
/// Where the file held an object, or there was none, the text records `name` once it is written. What
/// the text then holds is what the file held but for `name`; floating-point numbers may be rounded.
pub fn set_current_context(file: &ConfigFile, name: &str) -> (written: Result<String, String>)
    ensures
        match config_in(*file) {
            Ok(config) => {
                &&& written matches Ok(text)
                &&& text@ == json_pretty(with_current(config, name@))
                &&& reads_back(text@, with_current(config, name@))
                &&& parsed_config(text@) is Ok
                &&& current_in_text(text@) == if config is Object {
                    Some(name@)
                } else {
                    None
                }
                &&& float_free(config) ==> float_free(with_current(config, name@)) && parsed_config(
                    text@,
                ) == Ok::<Json, Seq<char>>(with_current(config, name@))
            },
            Err(error) => written matches Err(e) && e@ == error,
        },
        *file matches ConfigFile::Content(content) ==> match json_parse(content@) {
            Ok(Json::Object(members)) => written matches Ok(text) && text@ == json_pretty(
                Json::Object(members.insert("currentContext"@, Json::Text(name@))),
            ),
            Ok(other) => written matches Ok(text) && text@ == json_pretty(other),
            Err(message) => written matches Err(error) && error@
                == "Failed to parse Docker config: "@ + message,
        },
{
    let mut config = read_config_json(file)?;
    let ghost before = json_of(config);
    insert_current_context(&mut config, name);
    proof {
        lemma_set_keeps(before, name@);
    }
    let written = write_config_json(&config);
    proof {
        law_read_after_set(before, name@, written->Ok_0@);
    }
    written
}

/// The text to write to the configuration file so that there is no current context.
///
/// The text records none once it is written. What the text then holds is what the file held but for
/// the current context; floating-point numbers may be rounded.
pub fn clear_current_context(file: &ConfigFile) -> (written: Result<String, String>)
    ensures
        match config_in(*file) {
            Ok(config) => {
                &&& written matches Ok(text)
                &&& text@ == json_pretty(without_current(config))
                &&& reads_back(text@, without_current(config))
                &&& parsed_config(text@) is Ok
                &&& current_in_text(text@) is None
                &&& float_free(config) ==> float_free(without_current(config)) && parsed_config(
                    text@,
                ) == Ok::<Json, Seq<char>>(without_current(config))
            },
            Err(error) => written matches Err(e) && e@ == error,
        },
        *file matches ConfigFile::Content(content) ==> match json_parse(content@) {
            Ok(Json::Object(members)) => written matches Ok(text) && text@ == json_pretty(
                Json::Object(members.remove("currentContext"@)),
            ),
            Ok(other) => written matches Ok(text) && text@ == json_pretty(other),
            Err(message) => written matches Err(error) && error@
                == "Failed to parse Docker config: "@ + message,
        },
{
    let mut config = read_config_json(file)?;
    let ghost before = json_of(config);
    remove_current_context(&mut config);
    proof {
        lemma_clear_keeps(before);
    }
    write_config_json(&config)
}

// ---- laws ----

/// What stands in the file is what its own text parses to. Setting the current context in it changes
/// that one member of the object and leaves every other key as the text has it, or absent as there;
/// clearing takes that one member away and leaves the rest alike.
pub proof fn law_only_the_current_context_changes(text: String, name: Seq<char>, key: Seq<char>)
    ensures
        json_parse(text@) matches Ok(Json::Object(members)) ==> {
            &&& config_in(ConfigFile::Content(text)) matches Ok(config)
            &&& with_current(config, name) matches Json::Object(set)
            &&& without_current(config) matches Json::Object(cleared)
            &&& set.contains_key("currentContext"@) && set["currentContext"@] == Json::Text(name)
            &&& !cleared.contains_key("currentContext"@)
            &&& key != "currentContext"@ ==> set.contains_key(key) == members.contains_key(key)
                && cleared.contains_key(key) == members.contains_key(key)
            &&& key != "currentContext"@ && members.contains_key(key) ==> set[key] == members[key]
                && cleared[key] == members[key]
            &&& set == members.insert("currentContext"@, Json::Text(name))
            &&& cleared == members.remove("currentContext"@)
        },
{
}

/// What the text of a file parses to, and is no object, is written back as it is.
pub proof fn law_other_content_is_written_back(text: String, name: Seq<char>)
    ensures
        json_parse(text@) matches Ok(j) ==> (!(j is Object) ==> {
            &&& config_in(ConfigFile::Content(text)) matches Ok(config)
            &&& with_current(config, name) == j
            &&& without_current(config) == j
            &&& current_in(ConfigFile::Content(text)) is None
        }),
{
}

/// A file that is not there counts as an object without members: after setting, the current context is
/// its one member, and after clearing it has none.
pub proof fn law_missing_file_is_empty(name: Seq<char>, key: Seq<char>)
    ensures
        config_in(ConfigFile::Missing) matches Ok(config) && with_current(config, name) matches
            Json::Object(set) && without_current(config) matches Json::Object(cleared) && (
        set.contains_key(key) <==> key == "currentContext"@) && set["currentContext"@]
            == Json::Text(name) && !cleared.contains_key(key),
        current_in(ConfigFile::Missing) is None,
{
}

/// A file that cannot be read or does not parse is reported with the reason, whatever it is, and
/// records no current context.
pub proof fn law_unusable_file_is_reported(reason: String, text: String)
    ensures
        config_in(ConfigFile::Unreadable(reason)) == Err::<Json, Seq<char>>(
            "Failed to read Docker config: "@ + reason@,
        ),
        current_in(ConfigFile::Unreadable(reason)) is None,
        json_parse(text@) matches Err(message) ==> config_in(ConfigFile::Content(text)) == Err::<
            Json,
            Seq<char>,
        >("Failed to parse Docker config: "@ + message) && current_in(ConfigFile::Content(text))
            is None && current_in_text(text@) is None,
{
}

/// The current context is the text under its own key in what the file's text parses to; where nothing
/// or no text stands under that key, there is none.
pub proof fn law_current_is_its_member(text: String)
    ensures
        current_in(ConfigFile::Content(text)) == current_in_text(text@),
        json_parse(text@) matches Ok(Json::Object(members)) ==> match current_in_text(text@) {
            Some(name) => members.contains_key("currentContext"@) && members["currentContext"@]
                == Json::Text(name),
            None => members.contains_key("currentContext"@) ==> !(
            members["currentContext"@] is Text),
        },
        json_parse(text@) matches Ok(j) ==> parsed_config(text@) == Ok::<Json, Seq<char>>(j),
{
}

/// What is recorded as the current context of an object is read back from it.
pub proof fn law_set_then_read(config: Json, name: Seq<char>)
    requires
        config is Object,
    ensures
        current_of(with_current(config, name)) == Some(name),
{
}

/// Once the current context is cleared, there is none.
pub proof fn law_clear_then_read(config: Json)
    ensures
        current_of(without_current(config)) is None,
{
}

/// Setting and clearing the current context keep every other member of the configuration.
pub proof fn law_other_members_kept(
    members: Map<Seq<char>, Json>,
    name: Seq<char>,
    key: Seq<char>,
)
    requires
        key != "currentContext"@,
    ensures
        with_current(Json::Object(members), name) matches Json::Object(set) && set.contains_key(key)
            == members.contains_key(key) && (members.contains_key(key) ==> set[key]
            == members[key]),
        without_current(Json::Object(members)) matches Json::Object(cleared)
            && cleared.contains_key(key) == members.contains_key(key) && (members.contains_key(key)
            ==> cleared[key] == members[key]),
{
}

/// Of two names recorded one after the other, the last stays.
pub proof fn law_last_set_wins(config: Json, first: Seq<char>, last: Seq<char>)
    ensures
        with_current(with_current(config, first), last) == with_current(config, last),
{
    if let Json::Object(members) = config {
        let once = members.insert("currentContext"@, Json::Text(last));
        let twice = members.insert("currentContext"@, Json::Text(first)).insert(
            "currentContext"@,
            Json::Text(last),
        );
        assert(once =~= twice);
    }
}

/// Clearing undoes setting: it leaves what clearing alone would leave.
pub proof fn law_clear_undoes_set(config: Json, name: Seq<char>)
    ensures
        without_current(with_current(config, name)) == without_current(config),
{
    if let Json::Object(members) = config {
        assert(members.insert("currentContext"@, Json::Text(name)).remove("currentContext"@)
            =~= members.remove("currentContext"@));
    }
}

/// Clearing a second time changes nothing.
pub proof fn law_clear_twice(config: Json)
    ensures
        without_current(without_current(config)) == without_current(config),
{
    if let Json::Object(members) = config {
        assert(members.remove("currentContext"@).remove("currentContext"@) =~= members.remove(
            "currentContext"@,
        ));
    }
}

/// A configuration that is not an object stays as it is, and records no current context.
pub proof fn law_only_objects_change(config: Json, name: Seq<char>)
    requires
        !(config is Object),
    ensures
        with_current(config, name) == config,
        without_current(config) == config,
        current_of(config) is None,
{
}

/// Clearing restores what setting changed, where there was no current context before.
pub proof fn law_clear_restores(config: Json, name: Seq<char>)
    requires
        config matches Json::Object(members) ==> !members.contains_key("currentContext"@),
    ensures
        without_current(with_current(config, name)) == config,
{
    if let Json::Object(members) = config {
        assert(members.insert("currentContext"@, Json::Text(name)).remove("currentContext"@)
            =~= members);
    }
}

/// Once a name is set in a file that held an object, or in none, whatever it recorded before, the
/// name is read back from the file.
pub proof fn law_read_after_set(config: Json, name: Seq<char>, text: Seq<char>)
    requires
        nested_within(config, max_nesting()),
    ensures
        reads_back(text, with_current(config, name)) ==> current_in_text(text) == if config is Object {
            Some(name)
        } else {
            None
        },
{
    lemma_set_keeps(config, name);
    if let Json::Object(members) = config {
        assert(members.insert("currentContext"@, Json::Text(name)).contains_key(
            "currentContext"@,
        ));
    }
}

/// Setting and then clearing the current context in the file leaves a configuration without
/// floating-point numbers as clearing alone would, and as it was where it recorded no current context.
pub proof fn law_set_and_clear_in_the_file(
    config: Json,
    name: Seq<char>,
    set: Seq<char>,
    cleared: Seq<char>,
)
    requires
        nested_within(config, max_nesting()),
        float_free(config),
    ensures
        reads_back(set, with_current(config, name)) ==> parsed_config(set) == Ok::<Json, Seq<char>>(
            with_current(config, name),
        ),
        reads_back(cleared, without_current(with_current(config, name))) ==> parsed_config(cleared)
            == Ok::<Json, Seq<char>>(without_current(config)),
        reads_back(cleared, without_current(with_current(config, name))) && (config matches
            Json::Object(members) ==> !members.contains_key("currentContext"@)) ==> parsed_config(
            cleared,
        ) == Ok::<Json, Seq<char>>(config),
{
    lemma_set_keeps(config, name);
    lemma_clear_keeps(config);
    law_clear_undoes_set(config, name);
    if config matches Json::Object(members) ==> !members.contains_key("currentContext"@) {
        law_clear_restores(config, name);
    }
}

/// Recording a current context nests no deeper and brings no floating-point number.
proof fn lemma_set_keeps(config: Json, name: Seq<char>)
    ensures
        nested_within(config, max_nesting()) ==> nested_within(
            with_current(config, name),
            max_nesting(),
        ),
        float_free(config) ==> float_free(with_current(config, name)),
{
    if let Json::Object(members) = config {
        let after = members.insert("currentContext"@, Json::Text(name));
        if nested_within(config, max_nesting()) {
            assert forall|key: Seq<char>| #[trigger] after.contains_key(key) implies nested_within(
                after[key],
                (max_nesting() - 1) as nat,
            ) by {
                assert(key == "currentContext"@ || members.contains_key(key));
            }
        }
        if float_free(config) {
            assert forall|levels: nat| #[trigger] float_free_within(
                with_current(config, name),
                levels,
            ) by {
                assert(float_free_within(config, levels));
                if levels > 0 {
                    assert forall|key: Seq<char>| #[trigger]
                        after.contains_key(key) implies float_free_within(
                        after[key],
                        (levels - 1) as nat,
                    ) by {
                        assert(key == "currentContext"@ || members.contains_key(key));
                    }
                }
            }
        }
    }
}

/// Clearing the current context nests no deeper and brings no floating-point number.
proof fn lemma_clear_keeps(config: Json)
    ensures
        nested_within(config, max_nesting()) ==> nested_within(
            without_current(config),
            max_nesting(),
        ),
        float_free(config) ==> float_free(without_current(config)),
{
    if let Json::Object(members) = config {
        let after = members.remove("currentContext"@);
        assert forall|key: Seq<char>| #[trigger] after.contains_key(
            key,
        ) implies members.contains_key(key) by {}
        if float_free(config) {
            assert forall|levels: nat| #[trigger] float_free_within(
                without_current(config),
                levels,
            ) by {
                assert(float_free_within(config, levels));
            }
        }
    }
}

} // verus!
