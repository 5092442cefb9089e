//! The `/persona` command: switching the personality of the agent for a chat.

use vstd::prelude::*;
use vstd::string::*;
use crate::json::opt_text;
use crate::text::{
    concat, same_text, skip_chars, starts_with, trim, trimmed, trimmed_ends, trimmed_fixed,
    trimmed_twice, white_space,
};
use crate::text_map::{distinct_keys, has_key, map_of, upsert, upsert_mapped, upsert_sets, TextMap};
use crate::tools::template::arg_texts;

verus! {

/// A personality with a name of its own.
#[derive(Debug, Clone, Copy)]
pub struct PersonaPreset {
    /// The name by which it is chosen.
    pub name: &'static str,
    /// The name that is shown.
    pub label: &'static str,
    /// What the agent is told to be like.
    pub soul_content: &'static str,
}

/// What a preset says.
#[verifier::ext_equal]
pub struct PresetModel {
    pub name: Seq<char>,
    pub label: Seq<char>,
    pub soul_content: Seq<char>,
}

impl View for PersonaPreset {
    type V = PresetModel;

    open spec fn view(&self) -> PresetModel {
        PresetModel {
            name: self.name@,
            label: self.label@,
            soul_content: self.soul_content@,
        }
    }
}

/// What a preset of the given texts says.
pub open spec fn preset(name: Seq<char>, label: Seq<char>, soul_content: Seq<char>) -> PresetModel {
    PresetModel { name, label, soul_content }
}

/// The presets, in the order in which they are listed.
pub open spec fn presets() -> Seq<PresetModel> {
    seq![
        preset("default"@, "Default Assistant"@, ""@),
        preset(
            "concise"@,
            "Concise & Direct"@,
            "You are extremely concise. Answer in as few words as possible. No filler, no pleasantries. Get straight to the point."@,
        ),
        preset(
            "friendly"@,
            "Friendly & Warm"@,
            "You are warm, friendly, and encouraging. Use a conversational tone. Show genuine interest in helping. Be supportive and positive."@,
        ),
        preset(
            "professional"@,
            "Professional & Formal"@,
            "You are professional and formal. Use precise language. Structure responses clearly. Maintain a business-appropriate tone at all times."@,
        ),
        preset(
            "creative"@,
            "Creative & Playful"@,
            "You are creative, playful, and imaginative. Use vivid language, metaphors, and humor when appropriate. Think outside the box."@,
        ),
        preset(
            "technical"@,
            "Technical Expert"@,
            "You are a technical expert. Provide detailed, accurate technical explanations. Include code examples when relevant. Prioritize precision over simplicity."@,
        ),
    ]
}

/// What the presets of a list say.
pub open spec fn preset_models(list: Seq<PersonaPreset>) -> Seq<PresetModel> {
    list.map_values(|p: PersonaPreset| p@)
}

/// The presets, in the order in which they are listed.
pub fn persona_presets() -> (r: Vec<PersonaPreset>)
    ensures
        preset_models(r@) == presets(),
{
    let mut list: Vec<PersonaPreset> = Vec::new();
    list.push(PersonaPreset { name: "default", label: "Default Assistant", soul_content: "" });
    list.push(
        PersonaPreset {
            name: "concise",
            label: "Concise & Direct",
            soul_content: "You are extremely concise. Answer in as few words as possible. No filler, no pleasantries. Get straight to the point.",
        },
    );
    list.push(
        PersonaPreset {
            name: "friendly",
            label: "Friendly & Warm",
            soul_content: "You are warm, friendly, and encouraging. Use a conversational tone. Show genuine interest in helping. Be supportive and positive.",
        },
    );
    list.push(
        PersonaPreset {
            name: "professional",
            label: "Professional & Formal",
            soul_content: "You are professional and formal. Use precise language. Structure responses clearly. Maintain a business-appropriate tone at all times.",
        },
    );
    list.push(
        PersonaPreset {
            name: "creative",
            label: "Creative & Playful",
            soul_content: "You are creative, playful, and imaginative. Use vivid language, metaphors, and humor when appropriate. Think outside the box.",
        },
    );
    list.push(
        PersonaPreset {
            name: "technical",
            label: "Technical Expert",
            soul_content: "You are a technical expert. Provide detailed, accurate technical explanations. Include code examples when relevant. Prioritize precision over simplicity.",
        },
    );
    proof {
        assert(preset_models(list@) =~= presets());
    }
    list
}

/// The first preset of a list with the name.
pub open spec fn preset_named(list: Seq<PresetModel>, name: Seq<char>) -> Option<PresetModel>
    decreases list.len(),
{
    if list.len() == 0 {
        None
    } else if list[0].name == name {
        Some(list[0])
    } else {
        preset_named(list.skip(1), name)
    }
}

/// The preset with the name.
fn find_preset(name: &str) -> (r: Option<PersonaPreset>)
    ensures
        match r {
            Some(found) => preset_named(presets(), name@) == Some(found@),
            None => preset_named(presets(), name@) is None,
        },
{
    let list = persona_presets();
    let ghost all = presets();
    let mut i: usize = 0;
    proof {
        assert(all.skip(0) =~= all);
    }
    while i < list.len()
        invariant
            i <= list.len(),
            all == presets(),
            all == preset_models(list@),
            preset_named(all, name@) == preset_named(all.skip(i as int), name@),
        decreases list.len() - i,
    {
        proof {
            assert(all.skip(i as int)[0] == list@[i as int]@);
            assert(all.skip(i as int).skip(1) =~= all.skip(i + 1));
        }
        if same_text(list[i].name, name) {
            return Some(list[i]);
        }
        i = i + 1;
    }
    None
}

/// A `/persona` command.
#[derive(Debug, Clone, PartialEq, Eq)]
pub enum PersonaCommand {
    /// Show the persona that is set.
    Show,
    /// Set the persona, by the name of a preset or by a text.
    SetTo(String),
    /// Go back to the default.
    Reset,
    /// List the presets.
    List,
}

/// What a command says.
#[verifier::ext_equal]
pub enum CommandModel {
    Show,
    SetTo(Seq<char>),
    Reset,
    List,
}

impl View for PersonaCommand {
    type V = CommandModel;

    open spec fn view(&self) -> CommandModel {
        match *self {
            PersonaCommand::Show => CommandModel::Show,
            PersonaCommand::SetTo(arg) => CommandModel::SetTo(arg@),
            PersonaCommand::Reset => CommandModel::Reset,
            PersonaCommand::List => CommandModel::List,
        }
    }
}

/// The command that an argument selects.
pub open spec fn selected(arg: Seq<char>) -> CommandModel {
    if arg.len() == 0 {
        CommandModel::Show
    } else if arg == "reset"@ {
        CommandModel::Reset
    } else if arg == "list"@ {
        CommandModel::List
    } else {
        CommandModel::SetTo(arg)
    }
}

/// The command that a message is, if it is one: `/persona` alone or with an
/// argument behind a space.
pub open spec fn command_of(text: Seq<char>) -> Option<CommandModel> {
    let message = trimmed(text);
    if message == "/persona"@ {
        Some(CommandModel::Show)
    } else if "/persona "@.is_prefix_of(message) {
        Some(selected(trimmed(message.skip("/persona "@.len() as int))))
    } else {
        None
    }
}

/// What an optional command says.
pub open spec fn opt_command(command: Option<PersonaCommand>) -> Option<CommandModel> {
    match command {
        Some(command) => Some(command@),
        None => None,
    }
}

/// Reads a message as a `/persona` command.
pub fn parse_persona_command(text: &str) -> (r: Option<PersonaCommand>)
    ensures
        opt_command(r) == command_of(text@),
{
    let message = trim(text);
    if same_text(message, "/persona") {
        return Some(PersonaCommand::Show);
    }
    if !starts_with(message, "/persona ") {
        return None;
    }
    proof {
        reveal_strlit("/persona ");
    }
    let rest = trim(skip_chars(message, 9));
    if rest.unicode_len() == 0 {
        return Some(PersonaCommand::Show);
    }
    if same_text(rest, "reset") {
        Some(PersonaCommand::Reset)
    } else if same_text(rest, "list") {
        Some(PersonaCommand::List)
    } else {
        Some(PersonaCommand::SetTo(rest.to_string()))
    }
}

/// The line of a preset in the list of presets.
pub open spec fn preset_line(preset: PresetModel, current: Option<Seq<char>>) -> Seq<char> {
    "  "@ + preset.name + " — "@ + preset.label + (if current == Some(preset.name) {
        " (current)"@
    } else {
        ""@
    }) + "\n"@
}

/// The lines of the presets, one behind the other.
pub open spec fn preset_lines(list: Seq<PresetModel>, current: Option<Seq<char>>) -> Seq<char>
    decreases list.len(),
{
    if list.len() == 0 {
        Seq::empty()
    } else {
        preset_lines(list.drop_last(), current) + preset_line(list.last(), current)
    }
}

/// The list of the presets, with a mark at the current one.
pub open spec fn list_text(current: Option<Seq<char>>) -> Seq<char> {
    "Available personas:\n\n"@ + preset_lines(presets(), current)
        + "\nUse /persona <name> to set a preset, or /persona <custom text> for a custom persona."@
}

/// Lists the presets, with a mark at the current one.
pub fn format_persona_list(current: Option<&str>) -> (r: String)
    ensures
        r@ == list_text(opt_text(current)),
{
    let list = persona_presets();
    let ghost all = presets();
    let ghost shown = opt_text(current);
    let ghost head = "Available personas:\n\n"@;
    let mut output = "Available personas:\n\n".to_string();
    let mut i: usize = 0;
    proof {
        assert(head + preset_lines(all.take(0), shown) =~= head);
    }
    while i < list.len()
        invariant
            i <= list.len(),
            all == preset_models(list@),
            shown == opt_text(current),
            output@ == head + preset_lines(all.take(i as int), shown),
        decreases list.len() - i,
    {
        let item = &list[i];
        let is_current = match current {
            Some(name) => same_text(name, item.name),
            None => false,
        };
        let marker = if is_current {
            " (current)"
        } else {
            ""
        };
        let mut line = concat("  ", item.name, " — ");
        line.append(item.label);
        line.append(marker);
        line.append("\n");
        proof {
            assert(all.take(i + 1).drop_last() =~= all.take(i as int));
            assert(all.take(i + 1).last() == item@);
            assert(line@ == preset_line(item@, shown));
            assert(output@ + line@ =~= head + preset_lines(all.take(i + 1), shown));
        }
        output.append(line.as_str());
        i = i + 1;
    }
    proof {
        assert(all.take(i as int) =~= all);
    }
    output.append(
        "\nUse /persona <name> to set a preset, or /persona <custom text> for a custom persona.",
    );
    output
}

/// What is said of the current persona.
pub open spec fn current_text(current: Option<Seq<char>>) -> Seq<char> {
    match current {
        None => "Current persona: default (no override)"@,
        Some(name) => match preset_named(presets(), name) {
            Some(preset) => "Current persona: "@ + preset.name + " — "@ + preset.label
                + " (override)"@,
            None => "Current persona: custom override\nContent: "@ + name,
        },
    }
}

/// Says which persona is set.
pub fn format_current_persona(current: Option<&str>) -> (r: String)
    ensures
        r@ == current_text(opt_text(current)),
{
    match current {
        Some(name) => match find_preset(name) {
            Some(preset) => {
                let mut text = concat("Current persona: ", preset.name, " — ");
                text.append(preset.label);
                text.append(" (override)");
                text
            },
            None => {
                let mut text = "Current persona: custom override\nContent: ".to_string();
                text.append(name);
                text
            },
        },
        None => "Current persona: default (no override)".to_string(),
    }
}

/// What the agent is told to be like: the content of a preset, or the text
/// itself.
pub open spec fn soul_of(name_or_text: Seq<char>) -> Seq<char> {
    match preset_named(presets(), name_or_text) {
        Some(preset) => preset.soul_content,
        None => name_or_text,
    }
}

/// What the agent is told to be like.
pub fn resolve_soul_content(name_or_text: &str) -> (r: String)
    ensures
        r@ == soul_of(name_or_text@),
{
    match find_preset(name_or_text) {
        Some(preset) => preset.soul_content.to_string(),
        None => name_or_text.to_string(),
    }
}

/// The category of the overrides in the long-term memory.
pub const PERSONA_PREF_CATEGORY: &'static str = "persona_pref";

/// What the keys of the overrides in the long-term memory begin with.
pub const PERSONA_PREF_PREFIX: &'static str = "persona_pref:";

/// The key of a chat's override in the long-term memory.
pub open spec fn pref_key(chat_id: Seq<char>) -> Seq<char> {
    PERSONA_PREF_PREFIX@ + chat_id
}

/// An entry to write to the long-term memory.
pub struct Preference {
    pub key: String,
    pub value: String,
    pub category: &'static str,
}

/// What an entry to write says.
#[verifier::ext_equal]
pub struct PreferenceModel {
    pub key: Seq<char>,
    pub value: Seq<char>,
    pub category: Seq<char>,
}

impl View for Preference {
    type V = PreferenceModel;

    open spec fn view(&self) -> PreferenceModel {
        PreferenceModel { key: self.key@, value: self.value@, category: self.category@ }
    }
}

/// The entry that keeps a chat's override.
pub open spec fn preference(chat_id: Seq<char>, value: Seq<char>) -> PreferenceModel {
    PreferenceModel { key: pref_key(chat_id), value, category: PERSONA_PREF_CATEGORY@ }
}

/// The overrides of the chats: for each the name of a preset or a text.
pub fn new_persona_store() -> (r: TextMap<String>)
    ensures
        r.pairs() == Seq::<(Seq<char>, String)>::empty(),
{
    TextMap::new()
}

/// The entry of the long-term memory that keeps a chat's override.
pub fn persist_single(chat_id: &str, value: &str) -> (r: Preference)
    ensures
        r@ == preference(chat_id@, value@),
{
    let mut key = PERSONA_PREF_PREFIX.to_string();
    key.append(chat_id);
    Preference { key, value: value.to_string(), category: PERSONA_PREF_CATEGORY }
}

/// The key of the entry to delete where a chat has no override any more.
pub fn remove_single(chat_id: &str) -> (r: String)
    ensures
        r@ == pref_key(chat_id@),
{
    let mut key = PERSONA_PREF_PREFIX.to_string();
    key.append(chat_id);
    key
}

/// The overrides with one entry of the long-term memory taken over. An entry
/// with another kind of key or without a value is passed over.
pub open spec fn taken_over(
    overrides: Seq<(Seq<char>, Seq<char>)>,
    entry: (Seq<char>, Seq<char>),
) -> Seq<(Seq<char>, Seq<char>)> {
    if PERSONA_PREF_PREFIX@.is_prefix_of(entry.0) && entry.1.len() > 0 {
        upsert(overrides, entry.0.skip(PERSONA_PREF_PREFIX@.len() as int), entry.1)
    } else {
        overrides
    }
}

/// The overrides with the entries of the long-term memory taken over, one after
/// the other.
pub open spec fn hydrated(
    overrides: Seq<(Seq<char>, Seq<char>)>,
    entries: Seq<(Seq<char>, Seq<char>)>,
) -> Seq<(Seq<char>, Seq<char>)>
    decreases entries.len(),
{
    if entries.len() == 0 {
        overrides
    } else {
        taken_over(hydrated(overrides, entries.drop_last()), entries.last())
    }
}

/// The characters of the entries.
pub open spec fn entry_texts(entries: Seq<(String, String)>) -> Seq<(Seq<char>, Seq<char>)> {
    entries.map_values(|e: (String, String)| (e.0@, e.1@))
}

/// Takes the entries of the category from the long-term memory into the
/// overrides.
pub fn hydrate_overrides(store: &mut TextMap<String>, entries: Vec<(String, String)>)
    ensures
        arg_texts(final(store).pairs()) == hydrated(
            arg_texts(old(store).pairs()),
            entry_texts(entries@),
        ),
{
    let ghost before = arg_texts(store.pairs());
    let ghost given = entries@;
    let ghost all = entry_texts(given);
    for entry in it: entries
        invariant
            it.seq() == given,
            all == entry_texts(given),
            arg_texts(store.pairs()) == hydrated(before, all.take(it.index() as int)),
    {
        let (key, value) = entry;
        proof {
            reveal_strlit("persona_pref:");
            assert(all.take(it.index() + 1).drop_last() =~= all.take(it.index() as int));
            assert(all.take(it.index() + 1).last() == (key@, value@));
        }
        if starts_with(key.as_str(), PERSONA_PREF_PREFIX) && value.as_str().unicode_len() > 0 {
            let chat_id = skip_chars(key.as_str(), 13).to_string();
            proof {
                upsert_mapped(store.pairs(), chat_id@, value, |s: String| s@);
            }
            store.insert(chat_id, value);
        }
    }
    proof {
        assert(all.take(all.len() as int) =~= all);
    }
}

/// White space around a message does not matter.
pub proof fn outer_space_does_not_matter(text: Seq<char>)
    ensures
        command_of(trimmed(text)) == command_of(text),
{
    trimmed_twice(text);
}

/// A word that only begins with `/persona` is no command.
pub proof fn longer_words_are_no_command(rest: Seq<char>)
    requires
        rest.len() > 0,
        rest[0] != ' ',
        !white_space(rest.last()),
    ensures
        command_of("/persona"@ + rest) is None,
{
    let message = "/persona"@ + rest;
    reveal_strlit("/persona");
    reveal_strlit("/persona ");
    assert(message[0] == '/');
    assert(message.last() == rest.last());
    trimmed_fixed(message);
    assert(message.len() > 8);
    assert(message[8] == rest[0]);
    assert("/persona "@[8] == ' ');
}

/// A persona is set to a text that is not empty, has no white space around it
/// and is none of the words of the command.
pub proof fn persona_is_set_to_a_text(text: Seq<char>)
    ensures
        command_of(text) matches Some(CommandModel::SetTo(arg)) ==> arg.len() > 0 && trimmed(arg)
            == arg && arg != "reset"@ && arg != "list"@,
{
    let message = trimmed(text);
    trimmed_twice(message.skip("/persona "@.len() as int));
}

/// Any such text can be set.
pub proof fn any_text_can_be_set(arg: Seq<char>)
    requires
        arg.len() > 0,
        trimmed(arg) == arg,
        arg != "reset"@,
        arg != "list"@,
    ensures
        command_of("/persona "@ + arg) == Some(CommandModel::SetTo(arg)),
{
    let message = "/persona "@ + arg;
    reveal_strlit("/persona");
    reveal_strlit("/persona ");
    trimmed_ends(arg);
    assert(message[0] == '/');
    assert(message.last() == arg.last());
    trimmed_fixed(message);
    assert(message.len() > 8);
    assert("/persona "@.is_prefix_of(message)) by {
        assert("/persona "@ =~= message.subrange(0, 9));
    }
    assert(message.skip(9) =~= arg);
}

/// Each preset is found under its name.
pub proof fn presets_are_found(i: int)
    requires
        0 <= i < presets().len(),
    ensures
        preset_named(presets(), presets()[i].name) == Some(presets()[i]),
{
    let all = presets();
    preset_names_differ();
    first_of_its_name(all, i);
}

/// The names of the presets differ.
proof fn preset_names_differ()
    ensures
        forall|i: int, j: int|
            0 <= i < j < presets().len() ==> (#[trigger] presets()[i]).name != (
            #[trigger] presets()[j]).name,
{
    reveal_strlit("default");
    reveal_strlit("concise");
    reveal_strlit("friendly");
    reveal_strlit("professional");
    reveal_strlit("creative");
    reveal_strlit("technical");
    assert("default"@[0] == 'd');
    assert("concise"@[0] == 'c' && "concise"@.len() == 7);
    assert("friendly"@[0] == 'f');
    assert("professional"@[0] == 'p');
    assert("creative"@[0] == 'c' && "creative"@.len() == 8);
    assert("technical"@[0] == 't');
}

/// In a list without repeated names, a preset is the first of its name.
proof fn first_of_its_name(list: Seq<PresetModel>, i: int)
    requires
        0 <= i < list.len(),
        forall|i: int, j: int|
            0 <= i < j < list.len() ==> (#[trigger] list[i]).name != (#[trigger] list[j]).name,
    ensures
        preset_named(list, list[i].name) == Some(list[i]),
    decreases list.len(),
{
    if i > 0 {
        let rest = list.skip(1);
        assert(list[0].name != list[i].name);
        assert forall|i: int, j: int| 0 <= i < j < rest.len() implies (#[trigger] rest[i]).name != (
        #[trigger] rest[j]).name by {
            assert(list[i + 1].name != list[j + 1].name);
        }
        first_of_its_name(rest, i - 1);
        assert(rest[i - 1] == list[i]);
    }
}

/// A text that is the name of no preset stands for itself.
pub proof fn custom_text_is_itself(text: Seq<char>)
    requires
        forall|i: int| 0 <= i < presets().len() ==> (#[trigger] presets()[i]).name != text,
    ensures
        soul_of(text) == text,
{
    none_of_the_name(presets(), text);
}

/// Where no preset has the name, none is found.
proof fn none_of_the_name(list: Seq<PresetModel>, name: Seq<char>)
    requires
        forall|i: int| 0 <= i < list.len() ==> (#[trigger] list[i]).name != name,
    ensures
        preset_named(list, name) is None,
    decreases list.len(),
{
    if list.len() > 0 {
        let rest = list.skip(1);
        assert(list[0].name != name);
        assert forall|i: int| 0 <= i < rest.len() implies (#[trigger] rest[i]).name != name by {
            assert(list[i + 1].name != name);
        }
        none_of_the_name(rest, name);
    }
}

/// The entries of the long-term memory that keep the overrides.
pub open spec fn persisted(overrides: Seq<(Seq<char>, Seq<char>)>) -> Seq<
    (Seq<char>, Seq<char>),
> {
    overrides.map_values(|p: (Seq<char>, Seq<char>)| (pref_key(p.0), p.1))
}

/// What was persisted comes back: an empty store takes over just the overrides
/// that were written. An empty override would be lost.
pub proof fn persisted_overrides_come_back(overrides: Seq<(Seq<char>, Seq<char>)>)
    requires
        distinct_keys(overrides),
        forall|i: int| 0 <= i < overrides.len() ==> (#[trigger] overrides[i]).1.len() > 0,
    ensures
        hydrated(Seq::empty(), persisted(overrides)) == overrides,
    decreases overrides.len(),
{
    if overrides.len() == 0 {
        assert(overrides =~= Seq::empty());
    } else {
        let front = overrides.drop_last();
        let last = overrides.last();
        assert(distinct_keys(front)) by {
            assert forall|i: int, j: int| 0 <= i < j < front.len() implies (#[trigger] front[i]).0
                != (#[trigger] front[j]).0 by {
                assert(overrides[i].0 != overrides[j].0);
            }
        }
        assert forall|i: int| 0 <= i < front.len() implies (#[trigger] front[i]).1.len() > 0 by {
            assert(overrides[i].1.len() > 0);
        }
        persisted_overrides_come_back(front);
        assert(persisted(overrides).drop_last() =~= persisted(front));
        let key = pref_key(last.0);
        assert(persisted(overrides).last() == (key, last.1));
        assert(PERSONA_PREF_PREFIX@.is_prefix_of(key)) by {
            assert(key.subrange(0, PERSONA_PREF_PREFIX@.len() as int) =~= PERSONA_PREF_PREFIX@);
        }
        assert(key.skip(PERSONA_PREF_PREFIX@.len() as int) =~= last.0);
        assert(overrides[overrides.len() - 1].1.len() > 0);
        assert(!has_key(front, last.0)) by {
            if has_key(front, last.0) {
                let i = choose|i: int| 0 <= i < front.len() && (#[trigger] front[i]).0 == last.0;
                assert(overrides[i].0 != overrides[overrides.len() - 1].0);
            }
        }
        assert(front.push(last) =~= overrides);
    }
}

/// Entries of other chats do not touch a chat's override.
pub proof fn other_chats_keep_their_override(
    overrides: Seq<(Seq<char>, Seq<char>)>,
    entries: Seq<(Seq<char>, Seq<char>)>,
    chat_id: Seq<char>,
)
    requires
        distinct_keys(overrides),
        forall|i: int| 0 <= i < entries.len() ==> (#[trigger] entries[i]).0 != pref_key(chat_id),
    ensures
        distinct_keys(hydrated(overrides, entries)),
        map_of(hydrated(overrides, entries)).dom().contains(chat_id) == map_of(
            overrides,
        ).dom().contains(chat_id),
        map_of(overrides).dom().contains(chat_id) ==> map_of(hydrated(overrides, entries))[chat_id]
            == map_of(overrides)[chat_id],
    decreases entries.len(),
{
    if entries.len() > 0 {
        let front = entries.drop_last();
        assert forall|i: int| 0 <= i < front.len() implies (#[trigger] front[i]).0 != pref_key(
            chat_id,
        ) by {
            assert(entries[i].0 != pref_key(chat_id));
        }
        other_chats_keep_their_override(overrides, front, chat_id);
        let entry = entries[entries.len() - 1];
        if PERSONA_PREF_PREFIX@.is_prefix_of(entry.0) && entry.1.len() > 0 {
            let id = entry.0.skip(PERSONA_PREF_PREFIX@.len() as int);
            assert(pref_key(id) =~= entry.0);
            upsert_sets(hydrated(overrides, front), id, entry.1);
        }
    }
}

} // verus!
