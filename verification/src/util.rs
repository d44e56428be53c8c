use vstd::prelude::*;
pub use vstd::hash_map::StringHashMap;

verus! {

/// The index of the first `c` in `s` at or after position `from`, if there is one.
pub open spec fn find_from(s: Seq<char>, c: char, from: int) -> Option<int>
    decreases s.len() - from,
{
    if from < 0 || from >= s.len() {
        None
    } else if s[from] == c {
        Some(from)
    } else {
        find_from(s, c, from + 1)
    }
}

/// `find_from` finds the first occurrence, and reports `None` only when there is none.
pub proof fn lemma_find_from(s: Seq<char>, c: char, from: int)
    requires
        0 <= from <= s.len(),
    ensures
        match find_from(s, c, from) {
            Some(i) => from <= i < s.len() && s[i] == c && forall|j: int| from <= j < i ==> s[j] != c,
            None => forall|j: int| from <= j < s.len() ==> s[j] != c,
        },
    decreases s.len() - from,
{
    if from < s.len() && s[from] != c {
        lemma_find_from(s, c, from + 1);
    }
}


/// Positions of the first three spaces of an IRC line, when the line holds at least three
/// (that is, when splitting it at spaces into at most four pieces gives four).
pub open spec fn field_bounds(s: Seq<char>) -> Option<(int, int, int)> {
    match find_from(s, ' ', 0) {
        None => None,
        Some(a) => match find_from(s, ' ', a + 1) {
            None => None,
            Some(b) => match find_from(s, ' ', b + 1) {
                None => None,
                Some(c) => Some((a, b, c)),
            },
        },
    }
}

/// The nick of the sender: the part of the first field before its first `!`, without the
/// leading `:`; empty when that part does not start with `:`.
pub open spec fn line_user(s: Seq<char>, first_space: int) -> Seq<char> {
    let head_end = match find_from(s.subrange(0, first_space), '!', 0) {
        Some(j) => j,
        None => first_space,
    };
    if head_end > 0 && s[0] == ':' {
        s.subrange(1, head_end)
    } else {
        Seq::empty()
    }
}

/// What a line contributes to the log of the channels: the channel (third field) and the
/// text appended to its log. A `JOIN` appends `<user> is Joined!` and a newline, a `PRIVMSG`
/// appends `<user>`, two spaces and the rest of the line; any other line contributes nothing.
pub open spec fn log_entry(s: Seq<char>) -> Option<(Seq<char>, Seq<char>)> {
    match field_bounds(s) {
        None => None,
        Some((a, b, c)) => {
            let user = line_user(s, a);
            let op = s.subrange(a + 1, b);
            let channel = s.subrange(b + 1, c);
            let text = s.subrange(c + 1, s.len() as int);
            if op == "JOIN"@ {
                Some((channel, user + " is Joined!\n"@))
            } else if op == "PRIVMSG"@ {
                Some((channel, user + "  "@ + text))
            } else {
                None
            }
        },
    }
}

/// The text that a line adds to its channel's log (empty when it adds nothing).
pub open spec fn entry_text(s: Seq<char>) -> Seq<char> {
    match log_entry(s) {
        Some((_, e)) => e,
        None => Seq::empty(),
    }
}

/// The log of a channel in `m`, empty when the channel has none yet.
pub open spec fn log_of(m: Map<Seq<char>, Seq<char>>, channel: Seq<char>) -> Seq<char> {
    if m.contains_key(channel) {
        m[channel]
    } else {
        Seq::empty()
    }
}

/// The channel logs after reading the line `s`.
pub open spec fn filtered_log(m: Map<Seq<char>, Seq<char>>, s: Seq<char>) -> Map<
    Seq<char>,
    Seq<char>,
> {
    match log_entry(s) {
        None => m,
        Some((channel, e)) => m.insert(channel, log_of(m, channel) + e),
    }
}

/// The channel logs of a map from channel names to `String` logs, each log by its characters.
pub open spec fn logs_view(m: Map<Seq<char>, String>) -> Map<Seq<char>, Seq<char>> {
    m.map_values(|v: String| v@)
}

/// The first `c` in `s` in the positions `from..end`.
fn find_char(s: &str, c: char, from: usize, end: usize) -> (r: Option<usize>)
    requires
        from <= end <= s@.len(),
    ensures
        match r {
            Some(i) => find_from(s@.subrange(0, end as int), c, from as int) == Some(i as int),
            None => find_from(s@.subrange(0, end as int), c, from as int) is None,
        },
{
    let ghost t = s@.subrange(0, end as int);
    proof {
        lemma_find_from(t, c, from as int);
    }
    let mut i = from;
    while i < end
        invariant
            from <= i <= end <= s@.len(),
            t == s@.subrange(0, end as int),
            forall|j: int| from <= j < i ==> t[j] != c,
            match find_from(t, c, from as int) {
                Some(k) => from <= k < t.len() && t[k] == c && forall|j: int|
                    from <= j < k ==> t[j] != c,
                None => forall|j: int| from <= j < t.len() ==> t[j] != c,
            },
        decreases end - i,
    {
        if s.get_char(i) == c {
            assert(t[i as int] == c);
            return Some(i);
        }
        i = i + 1;
    }
    None
}

/// Whether two strings hold the same characters.
fn same_chars(a: &str, b: &str) -> (r: bool)
    ensures
        r == (a@ == b@),
{
    let n = a.unicode_len();
    if n != b.unicode_len() {
        return false;
    }
    let mut i: usize = 0;
    while i < n
        invariant
            n == a@.len() == b@.len(),
            i <= n,
            forall|j: int| 0 <= j < i ==> a@[j] == b@[j],
        decreases n - i,
    {
        if a.get_char(i) != b.get_char(i) {
            return false;
        }
        i = i + 1;
    }
    assert(a@ =~= b@);
    true
}

/// Splits an IRC line and computes what it adds to the log of which channel.
fn parse_line(s: &str) -> (r: Option<(String, String)>)
    ensures
        match r {
            Some((channel, e)) => log_entry(s@) == Some((channel@, e@)),
            None => log_entry(s@) is None,
        },
{
    let n = s.unicode_len();
    assert(s@.subrange(0, n as int) =~= s@);
    let a = match find_char(s, ' ', 0, n) {
        Some(a) => a,
        None => return None,
    };
    proof { lemma_find_from(s@, ' ', 0); }
    let b = match find_char(s, ' ', a + 1, n) {
        Some(b) => b,
        None => return None,
    };
    proof { lemma_find_from(s@, ' ', a + 1); }
    let c = match find_char(s, ' ', b + 1, n) {
        Some(c) => c,
        None => return None,
    };
    proof { lemma_find_from(s@, ' ', b + 1); }
    let head_end = match find_char(s, '!', 0, a) {
        Some(j) => j,
        None => a,
    };
    proof { lemma_find_from(s@.subrange(0, a as int), '!', 0); }
    let mut user = if head_end > 0 && s.get_char(0) == ':' {
        String::from_str(s.substring_char(1, head_end))
    } else {
        String::new()
    };
    let op = s.substring_char(a + 1, b);
    let channel = String::from_str(s.substring_char(b + 1, c));
    if same_chars(op, "JOIN") {
        user.append(" is Joined!\n");
        Some((channel, user))
    } else if same_chars(op, "PRIVMSG") {
        user.append("  ");
        user.append(s.substring_char(c + 1, n));
        Some((channel, user))
    } else {
        None
    }
}

/// Reads one line from the IRC server into the channel logs `mp`: a `JOIN` or `PRIVMSG` line
/// with at least four space-separated fields appends its entry to the log of its channel
/// (creating the log when the channel has none); any other line leaves `mp` unchanged.
pub fn filter(s: &str, mp: &mut StringHashMap<String>)
    ensures
        logs_view(final(mp)@) == filtered_log(logs_view(old(mp)@), s@),
{
    match parse_line(s) {
        None => {},
        Some((channel, e)) => {
            let mut x = match mp.get(channel.as_str()) {
                Some(v) => v.clone(),
                None => String::new(),
            };
            x.append(e.as_str());
            let ghost ch = channel@;
            let ghost added = x@;
            mp.insert(channel, x);
            assert(logs_view(mp@) =~= logs_view(old(mp)@).insert(ch, added));
        },
    }
}


/// The text that the line `s` adds to its channel's log; empty for a line that adds nothing.
pub fn filter_text(s: &str) -> (r: String)
    ensures
        r@ == entry_text(s@),
{
    match parse_line(s) {
        Some((_, e)) => e,
        None => String::new(),
    }
}

/// The channel that a line writes to, if it writes to one.
pub open spec fn entry_channel(s: Seq<char>) -> Option<Seq<char>> {
    match log_entry(s) {
        Some((channel, _)) => Some(channel),
        None => None,
    }
}

/// Reading a line appends its filtered text to the log of its own channel and leaves the log
/// of every other channel as it was; no channel other than the line's own gains a log.
pub proof fn law_filter_appends_to_its_channel_only(
    m: Map<Seq<char>, Seq<char>>,
    s: Seq<char>,
    k: Seq<char>,
)
    ensures
        entry_channel(s) == Some(k) ==> log_of(filtered_log(m, s), k) == log_of(m, k) + entry_text(s)
            && filtered_log(m, s).contains_key(k),
        entry_channel(s) != Some(k) ==> filtered_log(m, s).contains_key(k) == m.contains_key(k)
            && log_of(filtered_log(m, s), k) == log_of(m, k),
{
}

/// A line with fewer than three spaces, or whose command is neither `JOIN` nor `PRIVMSG`,
/// adds nothing: the logs stay as they were and its filtered text is empty.
pub proof fn law_filter_ignores_other_lines(m: Map<Seq<char>, Seq<char>>, s: Seq<char>)
    requires
        log_entry(s) is None,
    ensures
        filtered_log(m, s) == m,
        entry_text(s) == Seq::<char>::empty(),
{
}

/// A log only grows: what a channel's log held before a line is read is a prefix of what it
/// holds after.
pub proof fn law_filter_keeps_old_logs(m: Map<Seq<char>, Seq<char>>, s: Seq<char>, k: Seq<char>)
    ensures
        log_of(m, k).len() <= log_of(filtered_log(m, s), k).len(),
        log_of(filtered_log(m, s), k).subrange(0, log_of(m, k).len() as int) == log_of(m, k),
{
    law_filter_appends_to_its_channel_only(m, s, k);
    assert((log_of(m, k) + entry_text(s)).subrange(0, log_of(m, k).len() as int) =~= log_of(m, k));
}

/// `a`, `b` and `c` are the positions of the first three spaces of `s`, in order.
pub open spec fn first_three_spaces(s: Seq<char>, a: int, b: int, c: int) -> bool {
    &&& 0 <= a < b < c < s.len()
    &&& s[a] == ' ' && s[b] == ' ' && s[c] == ' '
    &&& forall|i: int| 0 <= i < c && i != a && i != b ==> s[i] != ' '
}

/// `e` is where the nick part of the first field (which ends at `a`) stops: at its first `!`,
/// or at the end of the field when it has none.
pub open spec fn nick_end(s: Seq<char>, a: int, e: int) -> bool {
    &&& 0 <= e <= a
    &&& (e < a ==> s[e] == '!')
    &&& forall|i: int| 0 <= i < e ==> s[i] != '!'
}

/// The nick, given where its part of the first field ends: that part without its leading
/// `:`, or nothing when it does not start with `:`.
pub open spec fn nick_of(s: Seq<char>, e: int) -> Seq<char> {
    if e > 0 && s[0] == ':' {
        s.subrange(1, e)
    } else {
        Seq::empty()
    }
}

proof fn lemma_spaces(s: Seq<char>, a: int, b: int, c: int)
    requires
        first_three_spaces(s, a, b, c),
    ensures
        field_bounds(s) == Some((a, b, c)),
{
    lemma_find_from(s, ' ', 0);
    lemma_find_from(s, ' ', a + 1);
    lemma_find_from(s, ' ', b + 1);
}

proof fn lemma_fields(s: Seq<char>, a: int, b: int, c: int, e: int)
    requires
        first_three_spaces(s, a, b, c),
        nick_end(s, a, e),
    ensures
        field_bounds(s) == Some((a, b, c)),
        line_user(s, a) == nick_of(s, e),
{
    lemma_spaces(s, a, b, c);
    let h = s.subrange(0, a);
    lemma_find_from(h, '!', 0);
    if e < a {
        assert(h[e] == '!');
    }
    match find_from(h, '!', 0) {
        Some(j) => {
            assert(h[j] == '!');
        },
        None => {},
    }
}

/// A `PRIVMSG` line appends, to the log of its third field, whatever that field holds, the
/// nick, two spaces and the rest of the line after the third space; no other log changes,
/// and that appended text is the line's filtered text.
pub proof fn law_privmsg_is_logged_under_its_third_field(
    m: Map<Seq<char>, Seq<char>>,
    s: Seq<char>,
    a: int,
    b: int,
    c: int,
    e: int,
)
    requires
        first_three_spaces(s, a, b, c),
        nick_end(s, a, e),
        s.subrange(a + 1, b) == "PRIVMSG"@,
    ensures
        ({
            let target = s.subrange(b + 1, c);
            let text = nick_of(s, e) + "  "@ + s.subrange(c + 1, s.len() as int);
            &&& filtered_log(m, s) == m.insert(target, log_of(m, target) + text)
            &&& entry_text(s) == text
            &&& entry_channel(s) == Some(target)
        }),
{
    lemma_fields(s, a, b, c, e);
    reveal_strlit("PRIVMSG");
    reveal_strlit("JOIN");
    assert(s.subrange(a + 1, b) != "JOIN"@) by {
        assert(s.subrange(a + 1, b).len() != "JOIN"@.len());
    }
}

/// A `JOIN` line appends, to the log of its third field, whatever that field holds, the nick
/// followed by ` is Joined!` and a newline; no other log changes, and that appended text is
/// the line's filtered text.
pub proof fn law_join_is_logged_under_its_third_field(
    m: Map<Seq<char>, Seq<char>>,
    s: Seq<char>,
    a: int,
    b: int,
    c: int,
    e: int,
)
    requires
        first_three_spaces(s, a, b, c),
        nick_end(s, a, e),
        s.subrange(a + 1, b) == "JOIN"@,
    ensures
        ({
            let target = s.subrange(b + 1, c);
            let text = nick_of(s, e) + " is Joined!\n"@;
            &&& filtered_log(m, s) == m.insert(target, log_of(m, target) + text)
            &&& entry_text(s) == text
            &&& entry_channel(s) == Some(target)
        }),
{
    lemma_fields(s, a, b, c, e);
}

/// A line whose second field is neither `JOIN` nor `PRIVMSG` changes no log and has no
/// filtered text.
pub proof fn law_other_commands_change_nothing(
    m: Map<Seq<char>, Seq<char>>,
    s: Seq<char>,
    a: int,
    b: int,
    c: int,
)
    requires
        first_three_spaces(s, a, b, c),
        s.subrange(a + 1, b) != "JOIN"@,
        s.subrange(a + 1, b) != "PRIVMSG"@,
    ensures
        filtered_log(m, s) == m,
        entry_text(s) == Seq::<char>::empty(),
        entry_channel(s) is None,
{
    lemma_spaces(s, a, b, c);
}

/// A line with fewer than three spaces changes no log and has no filtered text.
pub proof fn law_short_lines_change_nothing(m: Map<Seq<char>, Seq<char>>, s: Seq<char>)
    requires
        !exists|a: int, b: int, c: int| 0 <= a < b < c < s.len() && s[a] == ' ' && s[b] == ' '
            && s[c] == ' ',
    ensures
        filtered_log(m, s) == m,
        entry_text(s) == Seq::<char>::empty(),
        entry_channel(s) is None,
{
    lemma_find_from(s, ' ', 0);
    if let Some(a) = find_from(s, ' ', 0) {
        lemma_find_from(s, ' ', a + 1);
        if let Some(b) = find_from(s, ' ', a + 1) {
            lemma_find_from(s, ' ', b + 1);
            if let Some(c) = find_from(s, ' ', b + 1) {
                assert(0 <= a < b < c < s.len() && s[a] == ' ' && s[b] == ' ' && s[c] == ' ');
            }
        }
    }
}

} // verus!
