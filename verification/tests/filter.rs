use gelato::util::{filter, filter_text, StringHashMap};

fn log(mp: &StringHashMap<String>, channel: &str) -> Option<String> {
    mp.get(channel).cloned()
}

#[test]
fn join_line_is_logged_under_its_channel() {
    let mut mp = StringHashMap::new();
    filter(":alice!~a@host JOIN #rust :x", &mut mp);
    assert_eq!(log(&mp, "#rust"), Some("alice is Joined!\n".to_string()));
    assert_eq!(mp.len(), 1);
}

#[test]
fn privmsg_line_keeps_the_rest_of_the_line() {
    let mut mp = StringHashMap::new();
    filter(":bob!~b@host PRIVMSG #test :hello there\r\n", &mut mp);
    assert_eq!(
        log(&mp, "#test"),
        Some("bob  :hello there\r\n".to_string())
    );
}

#[test]
fn entries_append_to_the_channel_log() {
    let mut mp = StringHashMap::new();
    filter(":alice!a@h JOIN #c :x", &mut mp);
    filter(":bob!b@h PRIVMSG #c :hi", &mut mp);
    filter(":carol!c@h PRIVMSG #other :yo", &mut mp);
    assert_eq!(log(&mp, "#c"), Some("alice is Joined!\nbob  :hi".to_string()));
    assert_eq!(log(&mp, "#other"), Some("carol  :yo".to_string()));
    assert_eq!(mp.len(), 2);
}

#[test]
fn short_lines_are_ignored() {
    let mut mp = StringHashMap::new();
    filter("PING :server", &mut mp);
    filter(":a!b JOIN #c", &mut mp);
    assert_eq!(mp.len(), 0);
    assert_eq!(filter_text("PING :server"), "");
}

#[test]
fn other_commands_are_ignored() {
    let mut mp = StringHashMap::new();
    filter(":a!b@h PART #c :bye", &mut mp);
    filter(":server 001 nick :Welcome", &mut mp);
    assert_eq!(mp.len(), 0);
    assert_eq!(filter_text(":a!b@h PART #c :bye"), "");
}

#[test]
fn user_without_colon_is_empty() {
    assert_eq!(filter_text("alice!a@h PRIVMSG #c :hi"), "  :hi");
    assert_eq!(filter_text(":alice PRIVMSG #c :hi"), "alice  :hi");
    assert_eq!(filter_text(": JOIN #c x"), " is Joined!\n");
}

#[test]
fn three_spaces_make_four_fields() {
    // exactly three spaces: the fourth field is empty
    assert_eq!(filter_text(":a PRIVMSG #c "), "a  ");
    // doubled spaces give empty fields
    assert_eq!(filter_text(":a  PRIVMSG #c x"), "");
}

#[test]
fn non_ascii_text_is_kept() {
    let mut mp = StringHashMap::new();
    filter(":ユーザー!u@h PRIVMSG #日本 :こんにちは", &mut mp);
    assert_eq!(log(&mp, "#日本"), Some("ユーザー  :こんにちは".to_string()));
}

#[test]
fn filter_text_matches_what_filter_appends() {
    let line = ":dave!d@h PRIVMSG #x :msg";
    let mut mp = StringHashMap::new();
    mp.insert("#x".to_string(), "old ".to_string());
    filter(line, &mut mp);
    assert_eq!(log(&mp, "#x"), Some(format!("old {}", filter_text(line))));
}
