//! Template variables and the expansion of `{{name}}` placeholders.
use vstd::prelude::*;

use crate::config::{Config, ProcessEntryView, ProcessesConfig, ProcessesView};

verus! {

/// One binding of a template variable: its name and the text that replaces
/// `{{name}}`.
pub struct TemplateVar {
    pub name: String,
    pub value: String,
}

/// The bindings in force for one expansion, tried in order.
pub struct TemplateMapping {
    pub vars: Vec<TemplateVar>,
}

impl View for TemplateMapping {
    type V = Seq<(Seq<char>, Seq<char>)>;

    open spec fn view(&self) -> Seq<(Seq<char>, Seq<char>)> {
        self.vars@.map_values(|v: TemplateVar| (v.name@, v.value@))
    }
}

/// The placeholder text `{{name}}`.
pub open spec fn placeholder(name: Seq<char>) -> Seq<char> {
    seq!['{', '{'] + name + seq!['}', '}']
}

/// `t` stands in `s` from position `i` on.
pub open spec fn occurs_at(t: Seq<char>, s: Seq<char>, i: int) -> bool {
    0 <= i && i + t.len() <= s.len() && s.subrange(i, i + t.len()) == t
}

/// The first binding, from index `j` on, whose placeholder stands in `s` at
/// position `i`.
pub open spec fn first_key_at(m: Seq<(Seq<char>, Seq<char>)>, s: Seq<char>, i: int, j: int) -> Option<int>
    decreases m.len() - j,
{
    if j < 0 || j >= m.len() {
        None
    } else if occurs_at(placeholder(m[j].0), s, i) {
        Some(j)
    } else {
        first_key_at(m, s, i, j + 1)
    }
}

/// The expansion of `s` from position `i` on: a single left-to-right pass in
/// which each recognised placeholder is replaced by its value and every other
/// character is kept. Replacement text is never scanned again.
pub open spec fn expand_from(m: Seq<(Seq<char>, Seq<char>)>, s: Seq<char>, i: int) -> Seq<char>
    decreases s.len() - i,
{
    if i < 0 || i >= s.len() {
        Seq::empty()
    } else {
        match first_key_at(m, s, i, 0) {
            Some(j) => if 0 <= j < m.len() && i + m[j].0.len() + 4 <= s.len() {
                m[j].1 + expand_from(m, s, i + m[j].0.len() + 4)
            } else {
                Seq::empty()
            },
            None => seq![s[i]] + expand_from(m, s, i + 1),
        }
    }
}

/// The expansion of the whole of `s`.
pub open spec fn expand(m: Seq<(Seq<char>, Seq<char>)>, s: Seq<char>) -> Seq<char> {
    expand_from(m, s, 0)
}

/// `s` holds the opening `{{` somewhere.
pub open spec fn has_open_pair(s: Seq<char>) -> bool {
    exists|p: int| 0 <= p && p + 1 < s.len() && #[trigger] s[p] == '{' && s[p + 1] == '{'
}

proof fn lemma_first_key_none(m: Seq<(Seq<char>, Seq<char>)>, s: Seq<char>, i: int, j: int)
    requires
        forall|k: int| j <= k < m.len() ==> !occurs_at(placeholder(#[trigger] m[k].0), s, i),
    ensures
        first_key_at(m, s, i, j) is None,
    decreases m.len() - j,
{
    if 0 <= j < m.len() {
        lemma_first_key_none(m, s, i, j + 1);
    }
}

proof fn lemma_expand_from_inert(m: Seq<(Seq<char>, Seq<char>)>, s: Seq<char>, i: int)
    requires
        0 <= i <= s.len(),
        forall|k: int, p: int|
            0 <= k < m.len() && i <= p ==> !#[trigger] occurs_at(placeholder(m[k].0), s, p),
    ensures
        expand_from(m, s, i) == s.subrange(i, s.len() as int),
    decreases s.len() - i,
{
    if i < s.len() {
        assert forall|k: int| 0 <= k < m.len() implies !occurs_at(placeholder(#[trigger] m[k].0), s, i) by {}
        lemma_first_key_none(m, s, i, 0);
        lemma_expand_from_inert(m, s, i + 1);
        assert(seq![s[i]] + s.subrange(i + 1, s.len() as int) =~= s.subrange(i, s.len() as int));
    } else {
        assert(s.subrange(i, s.len() as int) =~= Seq::<char>::empty());
    }
}

/// Text in which no placeholder of the mapping occurs comes out of expansion
/// unchanged.
pub proof fn lemma_expand_inert(m: Seq<(Seq<char>, Seq<char>)>, s: Seq<char>)
    requires
        forall|k: int, p: int| 0 <= k < m.len() ==> !#[trigger] occurs_at(placeholder(m[k].0), s, p),
    ensures
        expand(m, s) == s,
{
    lemma_expand_from_inert(m, s, 0);
    assert(s.subrange(0, s.len() as int) =~= s);
}

/// Text without any `{{` comes out of expansion unchanged, whatever the
/// mapping.
pub proof fn lemma_expand_plain_text(m: Seq<(Seq<char>, Seq<char>)>, s: Seq<char>)
    requires
        !has_open_pair(s),
    ensures
        expand(m, s) == s,
{
    assert forall|k: int, p: int| 0 <= k < m.len() implies !#[trigger] occurs_at(placeholder(m[k].0), s, p) by {
        if occurs_at(placeholder(m[k].0), s, p) {
            let t = placeholder(m[k].0);
            assert(s.subrange(p, p + t.len())[0] == s[p]);
            assert(s.subrange(p, p + t.len())[1] == s[p + 1]);
        }
    }
    lemma_expand_inert(m, s);
}

/// With no bindings at all, expansion changes nothing.
pub proof fn lemma_expand_empty_mapping(s: Seq<char>)
    ensures
        expand(Seq::empty(), s) == s,
{
    lemma_expand_inert(Seq::empty(), s);
}

/// The characters of a string, one per element.
fn chars_of(s: &str) -> (r: Vec<char>)
    ensures
        r@ == s@,
{
    let n = s.unicode_len();
    let mut r: Vec<char> = Vec::new();
    let mut i: usize = 0;
    while i < n
        invariant
            n == s@.len(),
            i <= n,
            r@ == s@.subrange(0, i as int),
        decreases n - i,
    {
        r.push(s.get_char(i));
        i = i + 1;
        assert(r@ =~= s@.subrange(0, i as int));
    }
    assert(r@ =~= s@);
    r
}

/// The characters of `{{name}}`.
fn placeholder_chars(name: &String) -> (r: Vec<char>)
    ensures
        r@ == placeholder(name@),
{
    let inner = chars_of(name.as_str());
    let mut r: Vec<char> = Vec::new();
    r.push('{');
    r.push('{');
    let mut i: usize = 0;
    while i < inner.len()
        invariant
            i <= inner@.len(),
            r@ == seq!['{', '{'] + inner@.subrange(0, i as int),
        decreases inner.len() - i,
    {
        r.push(inner[i]);
        i = i + 1;
        assert(r@ =~= seq!['{', '{'] + inner@.subrange(0, i as int));
    }
    r.push('}');
    r.push('}');
    assert(inner@.subrange(0, inner@.len() as int) =~= inner@);
    assert(r@ =~= placeholder(name@));
    r
}

/// Whether `t` stands in `s` at position `i`.
fn occurs_at_exec(t: &Vec<char>, s: &Vec<char>, i: usize) -> (r: bool)
    ensures
        r == occurs_at(t@, s@, i as int),
{
    if i > s.len() || t.len() > s.len() - i {
        return false;
    }
    let mut k: usize = 0;
    while k < t.len()
        invariant
            k <= t@.len(),
            i + t@.len() <= s@.len(),
            s@.len() == s.len(),
            forall|q: int| 0 <= q < k ==> s@[i + q] == t@[q],
        decreases t.len() - k,
    {
        if s[i + k] != t[k] {
            assert(s@.subrange(i as int, i + t@.len())[k as int] != t@[k as int]);
            return false;
        }
        k = k + 1;
    }
    assert(s@.subrange(i as int, i + t@.len()) =~= t@);
    true
}

/// Whether `s` holds `{{` anywhere.
fn contains_open_pair(s: &Vec<char>) -> (r: bool)
    ensures
        r == has_open_pair(s@),
{
    let mut p: usize = 0;
    while p < s.len()
        invariant
            p <= s@.len(),
            forall|q: int| 0 <= q < p && q + 1 < s@.len() ==> !(#[trigger] s@[q] == '{' && s@[q + 1] == '{'),
        decreases s.len() - p,
    {
        if p + 1 < s.len() && s[p] == '{' && s[p + 1] == '{' {
            return true;
        }
        p = p + 1;
    }
    false
}

/// The index of the first binding whose placeholder stands in `s` at `i`.
fn find_key(tokens: &Vec<Vec<char>>, s: &Vec<char>, i: usize, m: Ghost<Seq<(Seq<char>, Seq<char>)>>) -> (r: Option<usize>)
    requires
        tokens@.len() == m@.len(),
        forall|k: int| 0 <= k < m@.len() ==> (#[trigger] tokens@[k])@ == placeholder(m@[k].0),
    ensures
        r matches Some(j) ==> first_key_at(m@, s@, i as int, 0) == Some(j as int) && j < m@.len()
            && occurs_at(placeholder(m@[j as int].0), s@, i as int),
        r is None ==> first_key_at(m@, s@, i as int, 0) is None,
{
    let mut j: usize = 0;
    while j < tokens.len()
        invariant
            j <= tokens@.len(),
            tokens@.len() == m@.len(),
            forall|k: int| 0 <= k < m@.len() ==> (#[trigger] tokens@[k])@ == placeholder(m@[k].0),
            first_key_at(m@, s@, i as int, 0) == first_key_at(m@, s@, i as int, j as int),
        decreases tokens.len() - j,
    {
        if occurs_at_exec(&tokens[j], s, i) {
            return Some(j);
        }
        j = j + 1;
    }
    None
}

/// Replaces, in one pass from left to right, each `{{name}}` whose name the
/// mapping binds by its value. Unknown placeholders and all other text are
/// kept, and inserted values are not expanded again. Text that is empty or
/// holds no `{{` is handed back as it is.
pub fn replace_template_variables(template_hashmap: &TemplateMapping, string: String) -> (r: String)
    ensures
        r@ == expand(template_hashmap@, string@),
{
    let ghost m = template_hashmap@;
    let chars = chars_of(string.as_str());
    if chars.len() == 0 || !contains_open_pair(&chars) {
        proof {
            lemma_expand_plain_text(m, string@);
        }
        return string;
    }
    let mut tokens: Vec<Vec<char>> = Vec::new();
    let mut k: usize = 0;
    while k < template_hashmap.vars.len()
        invariant
            k <= template_hashmap.vars@.len(),
            m == template_hashmap@,
            tokens@.len() == k,
            forall|q: int| 0 <= q < k ==> (#[trigger] tokens@[q])@ == placeholder(m[q].0),
        decreases template_hashmap.vars.len() - k,
    {
        tokens.push(placeholder_chars(&template_hashmap.vars[k].name));
        k = k + 1;
    }
    let mut out = String::new();
    let mut i: usize = 0;
    while i < chars.len()
        invariant
            i <= chars@.len(),
            chars@ == string@,
            m == template_hashmap@,
            tokens@.len() == m.len(),
            forall|q: int| 0 <= q < m.len() ==> (#[trigger] tokens@[q])@ == placeholder(m[q].0),
            out@ + expand_from(m, string@, i as int) == expand(m, string@),
        decreases chars.len() - i,
    {
        match find_key(&tokens, &chars, i, Ghost(m)) {
            Some(j) => {
                let ghost rest = expand_from(m, string@, i + m[j as int].0.len() + 4);
                assert(expand_from(m, string@, i as int) == m[j as int].1 + rest);
                assert(out@ + (m[j as int].1 + rest) =~= (out@ + m[j as int].1) + rest);
                out.append(template_hashmap.vars[j].value.as_str());
                i = i + tokens[j].len();
            },
            None => {
                let ghost rest = expand_from(m, string@, i + 1);
                let piece = string.as_str().substring_char(i, i + 1);
                assert(piece@ =~= seq![string@[i as int]]);
                assert(out@ + (piece@ + rest) =~= (out@ + piece@) + rest);
                out.append(piece);
                i = i + 1;
            },
        }
    }
    assert(expand_from(m, string@, i as int) =~= Seq::<char>::empty());
    assert(out@ + Seq::<char>::empty() =~= out@);
    out
}

/// The names of the running programs as plain sequences.
pub open spec fn names_view(running: Seq<String>) -> Seq<Seq<char>> {
    running.map_values(|n: String| n@)
}

/// The first entry of the process table, from index `j` on, whose program is
/// running.
pub open spec fn first_running(table: Seq<ProcessEntryView>, running: Seq<Seq<char>>, j: int) -> Option<int>
    decreases table.len() - j,
{
    if j < 0 || j >= table.len() {
        None
    } else if running.contains(table[j].name) {
        Some(j)
    } else {
        first_running(table, running, j + 1)
    }
}

/// The text and the icon to show: those of the first table entry whose
/// program runs, else the idle ones.
pub open spec fn process_data(p: ProcessesView, running: Seq<Seq<char>>) -> (Seq<char>, Seq<char>) {
    match first_running(p.process_map, running, 0) {
        Some(j) => if 0 <= j < p.process_map.len() {
            (p.process_map[j].text, p.process_map[j].icon)
        } else {
            (p.idle_text, p.idle_icon)
        },
        None => (p.idle_text, p.idle_icon),
    }
}

/// The four template variables, in the order in which they are tried.
pub open spec fn template_vars(p: ProcessesView, running: Seq<Seq<char>>) -> Seq<(Seq<char>, Seq<char>)> {
    seq![
        ("process.icon"@, process_data(p, running).1),
        ("process.text"@, process_data(p, running).0),
        ("idle.icon"@, p.idle_icon),
        ("idle.text"@, p.idle_text),
    ]
}

/// Whether `name` is among the running programs.
fn is_running(name: &String, running: &Vec<String>) -> (r: bool)
    ensures
        r == names_view(running@).contains(name@),
{
    let mut i: usize = 0;
    while i < running.len()
        invariant
            i <= running@.len(),
            forall|q: int| 0 <= q < i ==> running@[q]@ != name@,
        decreases running.len() - i,
    {
        if running[i] == *name {
            assert(names_view(running@)[i as int] == name@);
            return true;
        }
        i = i + 1;
    }
    assert forall|q: int| 0 <= q < names_view(running@).len() implies names_view(running@)[q] != name@ by {
        assert(names_view(running@)[q] == running@[q]@);
    }
    false
}

/// Picks the text and the icon of the first configured program that is
/// running, or the idle text and icon when none is.
pub fn get_data(processes: &ProcessesConfig, running: &Vec<String>) -> (r: (String, String))
    ensures
        (r.0@, r.1@) == process_data(processes@, names_view(running@)),
{
    let ghost table = processes@.process_map;
    let ghost names = names_view(running@);
    let mut j: usize = 0;
    while j < processes.process_map.len()
        invariant
            j <= processes.process_map@.len(),
            table == processes@.process_map,
            names == names_view(running@),
            first_running(table, names, 0) == first_running(table, names, j as int),
        decreases processes.process_map.len() - j,
    {
        let entry = &processes.process_map[j];
        assert(table[j as int] == entry@);
        if is_running(&entry.name, running) {
            return (entry.text.clone(), entry.icon.clone());
        }
        j = j + 1;
    }
    (processes.idle_text.clone(), processes.idle_icon.clone())
}

/// Builds the bindings of `process.icon`, `process.text`, `idle.icon` and
/// `idle.text` from the configuration and the running programs.
pub fn template_hashmap(config: &Config, running: &Vec<String>) -> (r: TemplateMapping)
    ensures
        r@ == template_vars(config@.processes, names_view(running@)),
{
    let (text, icon) = get_data(&config.processes, running);
    let mut vars: Vec<TemplateVar> = Vec::new();
    vars.push(TemplateVar { name: "process.icon".to_owned(), value: icon });
    vars.push(TemplateVar { name: "process.text".to_owned(), value: text });
    vars.push(TemplateVar { name: "idle.icon".to_owned(), value: config.processes.idle_icon.clone() });
    vars.push(TemplateVar { name: "idle.text".to_owned(), value: config.processes.idle_text.clone() });
    let r = TemplateMapping { vars };
    assert(r@ =~= template_vars(config@.processes, names_view(running@)));
    r
}

} // verus!
