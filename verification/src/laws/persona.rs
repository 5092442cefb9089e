//! Laws of the `/persona` command and of the overrides that it sets.

use vstd::prelude::*;
use vstd::string::*;
use crate::channels::persona_switch::{
    command_of, current_text, custom_text_is_itself, hydrated, list_text, pref_key, preference, preset_line,
    preset_lines, preset_named, presets, presets_are_found, soul_of, taken_over, CommandModel,
    PresetModel, PERSONA_PREF_CATEGORY, PERSONA_PREF_PREFIX,
};
use crate::laws::values::{blank_between, trimming_cuts_white_space_alone};
use crate::text::{trimmed, trimmed_ends, white_space};
use crate::text_map::{distinct_keys, map_of, upsert_sets};

verus! {

/// Whether a message, without the white space around it, is `/persona` with an
/// argument, and `arg` is that argument without the white space around it.
pub open spec fn has_argument(text: Seq<char>, arg: Seq<char>) -> bool {
    &&& trimmed(text).len() > 9
    &&& trimmed(text).take(9) == "/persona "@
    &&& trimmed(trimmed(text).skip(9)) == arg
}

/// What each message is: `/persona` alone shows the persona, with `reset` it goes
/// back to the default, with `list` it lists the presets, with any other text it
/// sets that text, and anything else is no command.
pub proof fn commands(text: Seq<char>, arg: Seq<char>)
    ensures
        command_of(text) == Some(CommandModel::Show) <==> trimmed(text) == "/persona"@,
        command_of(text) == Some(CommandModel::Reset) <==> has_argument(text, "reset"@),
        command_of(text) == Some(CommandModel::List) <==> has_argument(text, "list"@),
        command_of(text) == Some(CommandModel::SetTo(arg)) <==> has_argument(text, arg) && arg
            != "reset"@ && arg != "list"@,
        command_of(text) is None <==> trimmed(text) != "/persona"@ && !(trimmed(text).len() > 9
            && trimmed(text).take(9) == "/persona "@),
{
    let message = trimmed(text);
    reveal_strlit("/persona");
    reveal_strlit("/persona ");
    reveal_strlit("reset");
    reveal_strlit("list");
    assert("/persona"@.len() == 8 && "/persona "@.len() == 9);
    assert("reset"@.len() == 5 && "list"@.len() == 4);
    trimmed_ends(text);
    if message.len() >= 9 && "/persona "@.is_prefix_of(message) {
        assert(message.take(9) =~= "/persona "@);
        assert(message[8] == "/persona "@[8]);
        assert(message.last() != ' ');
        assert(message.len() > 9);
        let rest = message.skip(9);
        let cut = trimming_cuts_white_space_alone(rest);
        assert(rest.last() == message.last());
        assert(!white_space(rest[rest.len() - 1]));
        assert(!blank_between(rest, 0, rest.len() as int));
        assert(trimmed(rest).len() > 0);
    }
    if message.len() > 9 && message.take(9) == "/persona "@ {
        assert(message.subrange(0, 9) =~= message.take(9));
        assert("/persona "@.is_prefix_of(message));
    }
}

/// There are six presets, each with a name and a label; all but the first say
/// what the agent is to be like.
pub proof fn list_of_presets()
    ensures
        presets().len() == 6,
        presets()[0].name == "default"@ && presets()[0].label == "Default Assistant"@
            && presets()[0].soul_content.len() == 0,
        presets()[1].name == "concise"@ && presets()[1].label == "Concise & Direct"@,
        presets()[2].name == "friendly"@ && presets()[2].label == "Friendly & Warm"@,
        presets()[3].name == "professional"@ && presets()[3].label == "Professional & Formal"@,
        presets()[4].name == "creative"@ && presets()[4].label == "Creative & Playful"@,
        presets()[5].name == "technical"@ && presets()[5].label == "Technical Expert"@,
        forall|i: int| 1 <= i < 6 ==> (#[trigger] presets()[i]).soul_content.len() > 0,
{
    reveal_strlit("");
    reveal_strlit(
        "You are extremely concise. Answer in as few words as possible. No filler, no pleasantries. Get straight to the point.",
    );
    reveal_strlit(
        "You are warm, friendly, and encouraging. Use a conversational tone. Show genuine interest in helping. Be supportive and positive.",
    );
    reveal_strlit(
        "You are professional and formal. Use precise language. Structure responses clearly. Maintain a business-appropriate tone at all times.",
    );
    reveal_strlit(
        "You are creative, playful, and imaginative. Use vivid language, metaphors, and humor when appropriate. Think outside the box.",
    );
    reveal_strlit(
        "You are a technical expert. Provide detailed, accurate technical explanations. Include code examples when relevant. Prioritize precision over simplicity.",
    );
}

/// The name of a preset stands for what that preset says, and what is shown of
/// it is its name and label.
pub proof fn preset_stands_for_its_content(i: int)
    requires
        0 <= i < presets().len(),
    ensures
        soul_of(presets()[i].name) == presets()[i].soul_content,
        current_text(Some(presets()[i].name)) == "Current persona: "@ + presets()[i].name + " — "@
            + presets()[i].label + " (override)"@,
{
    presets_are_found(i);
}

/// A text that is the name of no preset stands for itself and is shown as it is;
/// without an override the default is shown.
pub proof fn custom_text_is_shown(text: Seq<char>)
    requires
        forall|i: int| 0 <= i < presets().len() ==> (#[trigger] presets()[i]).name != text,
    ensures
        soul_of(text) == text,
        current_text(Some(text)) == "Current persona: custom override\nContent: "@ + text,
        current_text(None) == "Current persona: default (no override)"@,
{
    custom_text_is_itself(text);
    nothing_is_found(presets(), text);
}

/// Where no preset has the name, none is found.
proof fn nothing_is_found(list: Seq<PresetModel>, name: Seq<char>)
    requires
        forall|i: int| 0 <= i < list.len() ==> (#[trigger] list[i]).name != name,
    ensures
        preset_named(list, name) is None,
    decreases list.len(),
{
    if list.len() > 0 {
        let rest = list.skip(1);
        assert(list[0].name != name);
        assert forall|i: int| 0 <= i < rest.len() implies (#[trigger] rest[i]).name != name by {
            assert(list[i + 1].name != name);
        }
        nothing_is_found(rest, name);
    }
}

/// The line of a preset has its name and label, and a mark just where it is the
/// current one.
pub proof fn current_preset_is_marked(preset: PresetModel, current: Option<Seq<char>>)
    ensures
        current == Some(preset.name) ==> preset_line(preset, current) == "  "@ + preset.name
            + " — "@ + preset.label + " (current)"@ + "\n"@,
        current != Some(preset.name) ==> preset_line(preset, current) == "  "@ + preset.name
            + " — "@ + preset.label + "\n"@,
{
    reveal_strlit("");
    if current != Some(preset.name) {
        let line = "  "@ + preset.name + " — "@ + preset.label;
        assert(line + ""@ =~= line);
    }
}

/// The list has a line for each preset, in order, between its heading and the
/// word on how to use it.
pub proof fn list_has_a_line_for_each_preset(current: Option<Seq<char>>)
    ensures
        list_text(current) == "Available personas:\n\n"@ + (preset_line(presets()[0], current)
            + preset_line(presets()[1], current) + preset_line(presets()[2], current)
            + preset_line(presets()[3], current) + preset_line(presets()[4], current)
            + preset_line(presets()[5], current))
            + "\nUse /persona <name> to set a preset, or /persona <custom text> for a custom persona."@,
{
    let all = presets();
    assert(all.drop_last() =~= all.take(5));
    assert(all.take(5).drop_last() =~= all.take(4));
    assert(all.take(4).drop_last() =~= all.take(3));
    assert(all.take(3).drop_last() =~= all.take(2));
    assert(all.take(2).drop_last() =~= all.take(1));
    assert(all.take(1).drop_last() =~= Seq::empty());
    assert(preset_lines(all.take(1).drop_last(), current) =~= Seq::empty());
    assert(preset_lines(all.take(1), current) =~= preset_line(all[0], current));
    assert(preset_lines(all.take(2), current) =~= preset_line(all[0], current) + preset_line(
        all[1],
        current,
    ));
    assert(preset_lines(all.take(3), current) == preset_lines(all.take(2), current) + preset_line(
        all[2],
        current,
    ));
    assert(preset_lines(all.take(4), current) == preset_lines(all.take(3), current) + preset_line(
        all[3],
        current,
    ));
    assert(preset_lines(all.take(5), current) == preset_lines(all.take(4), current) + preset_line(
        all[4],
        current,
    ));
    assert(preset_lines(all, current) == preset_lines(all.take(5), current) + preset_line(
        all[5],
        current,
    ));
}

/// The key of an override is the id of its chat behind the prefix.
pub proof fn key_of_an_override(chat_id: Seq<char>)
    ensures
        pref_key(chat_id) == "persona_pref:"@ + chat_id,
        PERSONA_PREF_CATEGORY@ == "persona_pref"@,
{
}

/// An entry with the key of a chat and a value sets the override of that chat to
/// the value and changes no other; an entry without a value, or with another kind
/// of key, changes nothing.
pub proof fn entry_sets_its_chat(
    overrides: Seq<(Seq<char>, Seq<char>)>,
    chat_id: Seq<char>,
    value: Seq<char>,
    key: Seq<char>,
)
    requires
        distinct_keys(overrides),
    ensures
        value.len() > 0 ==> map_of(taken_over(overrides, ("persona_pref:"@ + chat_id, value)))
            == map_of(overrides).insert(chat_id, value),
        value.len() == 0 ==> taken_over(overrides, (key, value)) == overrides,
        !"persona_pref:"@.is_prefix_of(key) ==> taken_over(overrides, (key, value)) == overrides,
{
    let made = "persona_pref:"@ + chat_id;
    assert("persona_pref:"@.is_prefix_of(made)) by {
        assert(made.subrange(0, "persona_pref:"@.len() as int) =~= "persona_pref:"@);
    }
    assert(made.skip("persona_pref:"@.len() as int) =~= chat_id);
    upsert_sets(overrides, chat_id, value);
}

/// No chat has two overrides after entries were taken over, if none had before.
proof fn overrides_stay_distinct(
    overrides: Seq<(Seq<char>, Seq<char>)>,
    entries: Seq<(Seq<char>, Seq<char>)>,
)
    requires
        distinct_keys(overrides),
    ensures
        distinct_keys(hydrated(overrides, entries)),
    decreases entries.len(),
{
    if entries.len() > 0 {
        overrides_stay_distinct(overrides, entries.drop_last());
        let before = hydrated(overrides, entries.drop_last());
        let entry = entries.last();
        upsert_sets(before, entry.0.skip(PERSONA_PREF_PREFIX@.len() as int), entry.1);
    }
}

/// Of several entries with a value for one chat the last counts.
pub proof fn last_entry_counts(
    overrides: Seq<(Seq<char>, Seq<char>)>,
    entries: Seq<(Seq<char>, Seq<char>)>,
    chat_id: Seq<char>,
    i: int,
)
    requires
        distinct_keys(overrides),
        0 <= i < entries.len(),
        entries[i].0 == "persona_pref:"@ + chat_id,
        entries[i].1.len() > 0,
        forall|j: int|
            i < j < entries.len() ==> (#[trigger] entries[j]).0 != "persona_pref:"@ + chat_id
                || entries[j].1.len() == 0,
    ensures
        map_of(hydrated(overrides, entries)).dom().contains(chat_id),
        map_of(hydrated(overrides, entries))[chat_id] == entries[i].1,
    decreases entries.len(),
{
    let front = entries.drop_last();
    let last = entries.last();
    overrides_stay_distinct(overrides, front);
    let before = hydrated(overrides, front);
    if i == entries.len() - 1 {
        entry_sets_its_chat(before, chat_id, last.1, last.0);
    } else {
        assert forall|j: int| i < j < front.len() implies (#[trigger] front[j]).0
            != "persona_pref:"@ + chat_id || front[j].1.len() == 0 by {
            assert(entries[j] == front[j]);
        }
        last_entry_counts(overrides, front, chat_id, i);
        assert(entries[entries.len() - 1] == last);
        if "persona_pref:"@.is_prefix_of(last.0) && last.1.len() > 0 {
            let id = last.0.skip("persona_pref:"@.len() as int);
            assert("persona_pref:"@ + id =~= last.0);
            assert(id != chat_id);
            upsert_sets(before, id, last.1);
        }
    }
}

/// The entry that keeps an override has the key of its chat, the value as it is
/// and the category of overrides.
pub proof fn entry_of_an_override(chat_id: Seq<char>, value: Seq<char>)
    ensures
        preference(chat_id, value).key == "persona_pref:"@ + chat_id,
        preference(chat_id, value).value == value,
        preference(chat_id, value).category == "persona_pref"@,
{
}

} // verus!
