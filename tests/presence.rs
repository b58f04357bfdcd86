use ddrpc::config::{
    Assets, Buttons, CliDiscordSet, Config, ConfigError, DiscordConfig, LoadOutcome,
    ProcessEntry, ProcessesConfig, StoredConfig, config_dir_from, config_file_from,
    decode_config_text, initialize_config, set_activity_data, shown_or_none,
    verify_config_integrity,
};
use ddrpc::discord::{client_init, set_activity, update_activity, ActivityPayload};
use ddrpc::template::{
    get_data, replace_template_variables, template_hashmap, TemplateMapping, TemplateVar,
};

fn s(t: &str) -> String {
    t.to_string()
}

fn mapping(pairs: &[(&str, &str)]) -> TemplateMapping {
    TemplateMapping {
        vars: pairs.iter().map(|(k, v)| TemplateVar { name: s(k), value: s(v) }).collect(),
    }
}

fn presence(details: &str, large_image: &str, large_text: &str) -> DiscordConfig {
    DiscordConfig {
        client_id: 42,
        details: s(details),
        state: s(""),
        assets: Assets {
            large_image: s(large_image),
            large_text: s(large_text),
            small_image: s(""),
            small_text: s(""),
        },
        buttons: Buttons { btn1_text: s(""), btn1_url: s(""), btn2_text: s(""), btn2_url: s("") },
    }
}

fn browser_config(details: &str, large_image: &str) -> Config {
    Config {
        processes: ProcessesConfig {
            idle_icon: s("icon-idle"),
            idle_text: s("Idle"),
            process_map: vec![ProcessEntry {
                name: s("chrome.exe"),
                icon: s("icon-browser"),
                text: s("Browsing"),
            }],
        },
        discord: presence(details, large_image, ""),
    }
}

fn is_default(c: &Config) -> bool {
    c.discord.client_id == 0
        && c.discord.details.is_empty()
        && c.discord.state.is_empty()
        && c.discord.assets.large_image.is_empty()
        && c.discord.buttons.btn1_text.is_empty()
        && c.processes.idle_icon.is_empty()
        && c.processes.idle_text.is_empty()
        && c.processes.process_map.is_empty()
}

fn details_of(p: &ActivityPayload) -> Option<&str> {
    p.details.as_deref()
}

#[test]
fn expands_known_placeholder() {
    let m = mapping(&[("process.text", "Chess")]);
    assert_eq!(replace_template_variables(&m, s("Playing {{process.text}}")), "Playing Chess");
}

#[test]
fn plain_text_is_kept_with_empty_mapping() {
    let m = mapping(&[]);
    assert_eq!(replace_template_variables(&m, s("just text {")), "just text {");
    assert_eq!(replace_template_variables(&m, s("")), "");
}

#[test]
fn unknown_placeholder_is_inert() {
    let m = mapping(&[("process.text", "Chess"), ("idle.text", "Idle")]);
    assert_eq!(replace_template_variables(&m, s("{{unknown.key}}")), "{{unknown.key}}");
}

#[test]
fn replacements_are_not_expanded_again() {
    let m = mapping(&[("process.text", "{{idle.text}}"), ("idle.text", "Idle")]);
    assert_eq!(
        replace_template_variables(&m, s("{{process.text}} / {{idle.text}}")),
        "{{idle.text}} / Idle"
    );
}

#[test]
fn every_occurrence_is_replaced() {
    let m = mapping(&[("a", "x")]);
    assert_eq!(replace_template_variables(&m, s("{{a}}{{a}}-{{{a}}}")), "xx-{x}");
}

#[test]
fn running_process_is_chosen() {
    let cfg = browser_config("{{process.text}}", "{{process.icon}}");
    let (text, icon) = get_data(&cfg.processes, &vec![s("bash"), s("chrome.exe")]);
    assert_eq!(text, "Browsing");
    assert_eq!(icon, "icon-browser");
    let (text, icon) = get_data(&cfg.processes, &vec![s("bash")]);
    assert_eq!(text, "Idle");
    assert_eq!(icon, "icon-idle");
}

#[test]
fn mapping_has_four_bindings() {
    let cfg = browser_config("", "");
    let m = template_hashmap(&cfg, &vec![]);
    let names: Vec<&str> = m.vars.iter().map(|v| v.name.as_str()).collect();
    let values: Vec<&str> = m.vars.iter().map(|v| v.value.as_str()).collect();
    assert_eq!(names, vec!["process.icon", "process.text", "idle.icon", "idle.text"]);
    assert_eq!(values, vec!["icon-idle", "Idle", "icon-idle", "Idle"]);
}

#[test]
fn browser_scenario() {
    let cfg = browser_config("{{process.text}}", "{{process.icon}}");
    let w = client_init(());
    let (w, sent) = set_activity(w, &cfg, &vec![s("chrome.exe")]);
    let p = sent.expect("first tick sends");
    assert_eq!(details_of(&p), Some("Browsing"));
    assert_eq!(p.assets.as_ref().unwrap().large_image.as_deref(), Some("icon-browser"));
    assert_eq!(w.replaced_data.details, "Browsing");
    let (_, sent) = set_activity(w, &cfg, &vec![s("explorer.exe")]);
    let p = sent.expect("idle differs");
    assert_eq!(details_of(&p), Some("Idle"));
    assert_eq!(p.assets.as_ref().unwrap().large_image.as_deref(), Some("icon-idle"));
}

#[test]
fn second_tick_sends_nothing() {
    let cfg = browser_config("{{process.text}}", "");
    let running = vec![s("chrome.exe")];
    let (w, first) = set_activity(client_init(()), &cfg, &running);
    assert!(first.is_some());
    let (_, second) = set_activity(w, &cfg, &running);
    assert!(second.is_none());
}

#[test]
fn changed_details_send_once_more() {
    let running = vec![s("chrome.exe")];
    let cfg = browser_config("{{process.text}}", "{{process.icon}}");
    let (w, first) = set_activity(client_init(()), &cfg, &running);
    let first = first.unwrap();
    let cfg2 = browser_config("Reading {{process.text}}", "{{process.icon}}");
    let (w, second) = set_activity(w, &cfg2, &running);
    let second = second.expect("changed details send");
    assert_eq!(details_of(&second), Some("Reading Browsing"));
    assert_eq!(second.state, first.state);
    assert_eq!(
        second.assets.as_ref().unwrap().large_image,
        first.assets.as_ref().unwrap().large_image
    );
    assert_eq!(second.buttons.is_none(), first.buttons.is_none());
    let (_, third) = set_activity(w, &cfg2, &running);
    assert!(third.is_none());
}

#[test]
fn empty_presence_sends_nothing_at_start() {
    let (_, sent) = set_activity(client_init(()), &Config::default(), &vec![]);
    assert!(sent.is_none());
}

#[test]
fn partial_asset_group_sends_set_fields() {
    let mut cfg = browser_config("", "big");
    cfg.discord.assets.large_text = s("");
    let (_, sent) = set_activity(client_init(()), &cfg, &vec![]);
    let p = sent.unwrap();
    assert!(p.details.is_none());
    assert!(p.state.is_none());
    let a = p.assets.unwrap();
    assert_eq!(a.large_image.as_deref(), Some("big"));
    assert!(a.large_text.is_none());
    assert!(a.small_image.is_none());
    assert!(p.buttons.is_none());
}

#[test]
fn button_slots_are_independent() {
    let mut cfg = browser_config("x", "");
    cfg.discord.buttons.btn2_text = s("Site {{idle.text}}");
    cfg.discord.buttons.btn2_url = s("https://example.org");
    cfg.discord.buttons.btn1_text = s("no url");
    let (_, sent) = set_activity(client_init(()), &cfg, &vec![]);
    let b = sent.unwrap().buttons.unwrap();
    assert_eq!(b.len(), 1);
    assert_eq!(b[0].label, "Site Idle");
    assert_eq!(b[0].url, "https://example.org");
}

#[test]
fn failed_reload_keeps_config() {
    let mut cfg = browser_config("{{process.text}}", "");
    let (w, sent) = update_activity(&mut cfg, client_init(()), None, &vec![]);
    assert!(sent.is_none());
    assert_eq!(cfg.discord.details, "{{process.text}}");
    let (_, sent) = update_activity(&mut cfg, w, Some(browser_config("new", "")), &vec![]);
    assert_eq!(details_of(&sent.unwrap()), Some("new"));
    assert_eq!(cfg.discord.details, "new");
}

#[test]
fn corrupt_file_is_regenerated() {
    match initialize_config(StoredConfig::Malformed) {
        LoadOutcome::Regenerated(c) => assert!(is_default(&c)),
        LoadOutcome::Ready(_) => panic!("a malformed file must be discarded"),
    }
    assert!(matches!(verify_config_integrity(None), LoadOutcome::Regenerated(_)));
}

#[test]
fn missing_file_gives_default_without_writing() {
    match initialize_config(StoredConfig::Absent) {
        LoadOutcome::Ready(c) => assert!(is_default(&c)),
        LoadOutcome::Regenerated(_) => panic!("nothing to remove"),
    }
}

#[test]
fn parsed_file_is_used() {
    match initialize_config(StoredConfig::Parsed(browser_config("d", ""))) {
        LoadOutcome::Ready(c) => assert_eq!(c.discord.details, "d"),
        LoadOutcome::Regenerated(_) => panic!("a valid file is kept"),
    }
}

#[test]
fn config_paths() {
    assert_eq!(config_dir_from(None), "./ddrpc");
    assert_eq!(config_file_from(None), "./ddrpc/ddrpc.toml");
    assert_eq!(config_dir_from(Some(s("/home/a/.config"))), "/home/a/.config/ddrpc");
    assert_eq!(config_file_from(Some(s("/c"))), "/c/ddrpc/ddrpc.toml");
}

#[test]
fn config_bytes_must_be_utf8() {
    assert!(matches!(decode_config_text(vec![0xff, 0xfe, 0x00]), Err(ConfigError::InvalidUtf8)));
    match decode_config_text("[presence]\nd = \"é\"".as_bytes().to_vec()) {
        Ok(t) => assert_eq!(t, "[presence]\nd = \"é\""),
        Err(_) => panic!("valid text refused"),
    }
}

#[test]
fn shown_or_none_marks_empty() {
    assert_eq!(shown_or_none(&s("")), "<None>");
    assert_eq!(shown_or_none(&s("abc")), "abc");
}

fn no_overrides() -> CliDiscordSet {
    CliDiscordSet {
        client_id: None,
        details: None,
        state: None,
        large_image: None,
        large_text: None,
        small_image: None,
        small_text: None,
        button1_text: None,
        button1_url: None,
        button2_text: None,
        button2_url: None,
    }
}

#[test]
fn overrides_respect_groups() {
    let mut cfg = browser_config("old", "img");
    let mut arg = no_overrides();
    arg.client_id = Some(7);
    arg.details = Some(s("new"));
    arg.large_image = Some(s("other"));
    arg.state = Some(s("st"));
    arg.button1_text = Some(s("b"));
    set_activity_data(&mut cfg, arg);
    assert_eq!(cfg.discord.client_id, 7);
    assert_eq!(cfg.discord.details, "new");
    assert_eq!(cfg.discord.assets.large_image, "img");
    assert_eq!(cfg.discord.state, "");
    assert_eq!(cfg.discord.buttons.btn1_text, "");
    assert_eq!(cfg.processes.idle_text, "Idle");

    cfg.discord.assets = Assets {
        large_image: s("a"),
        large_text: s("b"),
        small_image: s("c"),
        small_text: s("d"),
    };
    let mut arg = no_overrides();
    arg.large_image = Some(s("other"));
    arg.state = Some(s("st"));
    set_activity_data(&mut cfg, arg);
    assert_eq!(cfg.discord.assets.large_image, "other");
    assert_eq!(cfg.discord.assets.large_text, "b");
    assert_eq!(cfg.discord.state, "st");
}
