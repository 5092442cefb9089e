use zeptoclaw::channels::persona_switch::{
    format_current_persona, format_persona_list, hydrate_overrides, new_persona_store,
    parse_persona_command, persist_single, persona_presets, remove_single, resolve_soul_content,
    PersonaCommand,
};

#[test]
fn test_parse_persona_command_show() {
    let cmd = parse_persona_command("/persona");
    assert_eq!(cmd, Some(PersonaCommand::Show));
}

#[test]
fn test_parse_persona_command_list() {
    let cmd = parse_persona_command("/persona list");
    assert_eq!(cmd, Some(PersonaCommand::List));
}

#[test]
fn test_parse_persona_command_reset() {
    let cmd = parse_persona_command("/persona reset");
    assert_eq!(cmd, Some(PersonaCommand::Reset));
}

#[test]
fn test_parse_persona_command_set_preset() {
    let cmd = parse_persona_command("/persona concise");
    assert_eq!(cmd, Some(PersonaCommand::SetTo("concise".to_string())));
}

#[test]
fn test_parse_persona_command_set_custom() {
    let cmd = parse_persona_command("/persona Be a pirate");
    assert_eq!(cmd, Some(PersonaCommand::SetTo("Be a pirate".to_string())));
}

#[test]
fn test_parse_persona_command_not_persona() {
    let cmd = parse_persona_command("hello");
    assert_eq!(cmd, None);
}

#[test]
fn test_parse_persona_rejects_similar() {
    assert_eq!(parse_persona_command("/personas"), None);
    assert_eq!(parse_persona_command("/persona_x"), None);
}

#[test]
fn white_space_around_a_command_does_not_matter() {
    assert_eq!(
        parse_persona_command("  /persona \n"),
        Some(PersonaCommand::Show)
    );
    assert_eq!(
        parse_persona_command("\t/persona    Be kind \u{2003}"),
        Some(PersonaCommand::SetTo("Be kind".to_string()))
    );
    assert_eq!(parse_persona_command("/persona\tlist"), None);
    assert_eq!(parse_persona_command(""), None);
}

#[test]
fn test_format_persona_list_shows_presets() {
    let output = format_persona_list(None);
    assert!(output.contains("default"));
    assert!(output.contains("concise"));
    assert!(output.contains("friendly"));
    assert!(output.contains("professional"));
    assert!(output.contains("creative"));
    assert!(output.contains("technical"));
}

#[test]
fn list_marks_the_current_preset() {
    assert_eq!(
        format_persona_list(Some("friendly")),
        "Available personas:\n\n  default — Default Assistant\n  concise — Concise & Direct\n  \
         friendly — Friendly & Warm (current)\n  professional — Professional & Formal\n  \
         creative — Creative & Playful\n  technical — Technical Expert\n\n\
         Use /persona <name> to set a preset, or /persona <custom text> for a custom persona."
    );
    assert!(!format_persona_list(Some("Be a pirate")).contains("(current)"));
}

#[test]
fn current_persona_is_told() {
    assert_eq!(
        format_current_persona(None),
        "Current persona: default (no override)"
    );
    assert_eq!(
        format_current_persona(Some("technical")),
        "Current persona: technical — Technical Expert (override)"
    );
    assert_eq!(
        format_current_persona(Some("Be a pirate")),
        "Current persona: custom override\nContent: Be a pirate"
    );
}

#[test]
fn test_resolve_soul_content_preset() {
    let content = resolve_soul_content("concise");
    assert_eq!(
        content,
        "You are extremely concise. Answer in as few words as possible. No filler, no pleasantries. Get straight to the point."
    );
}

#[test]
fn test_resolve_soul_content_custom() {
    let content = resolve_soul_content("Be a pirate");
    assert_eq!(content, "Be a pirate");
}

#[test]
fn each_preset_is_found() {
    let presets = persona_presets();
    assert_eq!(presets.len(), 6);
    for preset in &presets {
        assert_eq!(resolve_soul_content(preset.name), preset.soul_content);
    }
    assert_eq!(resolve_soul_content("default"), "");
}

#[test]
fn test_persist_and_hydrate_persona() {
    let mut store = new_persona_store();
    store.insert("chat456".to_string(), "concise".to_string());

    // What the long-term memory keeps of the store.
    let mut entries = Vec::new();
    for i in 0..store.len() {
        let entry = persist_single(store.key_at(i), store.value_at(i));
        assert_eq!(entry.category, "persona_pref");
        entries.push((entry.key, entry.value));
    }
    assert_eq!(entries[0].0, "persona_pref:chat456");

    let mut store2 = new_persona_store();
    hydrate_overrides(&mut store2, entries);
    let value = store2.get("chat456").unwrap();
    assert_eq!(value, "concise");
}

#[test]
fn hydration_passes_over_what_is_no_override() {
    let mut store = new_persona_store();
    store.insert("kept".to_string(), "friendly".to_string());
    hydrate_overrides(
        &mut store,
        vec![
            ("persona_pref:a".to_string(), "first".to_string()),
            ("other:b".to_string(), "x".to_string()),
            ("persona_pref:c".to_string(), String::new()),
            ("persona_pref:a".to_string(), "second".to_string()),
        ],
    );
    assert_eq!(store.len(), 2);
    assert_eq!(store.get("kept").unwrap(), "friendly");
    assert_eq!(store.get("a").unwrap(), "second");
    assert!(store.get("c").is_none());
}

#[test]
fn removed_override_has_the_key_of_the_persisted() {
    assert_eq!(remove_single("chat 1"), persist_single("chat 1", "x").key);
}
