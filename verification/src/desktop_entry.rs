//! Application descriptors: line-oriented files of `key=value` pairs in
//! bracketed sections, of which the section `[Desktop Entry]` describes one
//! launchable application.

use vstd::prelude::*;
use crate::text::{
    chars_of, has_prefix, slice_of, starts_with, string_of, strip_code, trim, trimmed,
    without_code,
};

verus! {

/// One launchable application.
#[derive(Debug, Clone)]
pub struct AppEntry {
    /// Name as it is shown
    pub name: String,
    /// Command that starts the application, free of placeholders
    pub command: String,
    /// Icon reference
    pub icon: Option<String>,
    /// Path of the descriptor that the entry was read from
    pub desktop_file: String,
    /// Fuzzy match score (higher = better match), valid while a filter
    /// that set it is in force
    pub score: i32,
}

/// An [`AppEntry`] as a mathematical value.
pub struct AppEntryView {
    pub name: Seq<char>,
    pub command: Seq<char>,
    pub icon: Option<Seq<char>>,
    pub desktop_file: Seq<char>,
    pub score: int,
}

impl View for AppEntry {
    type V = AppEntryView;

    open spec fn view(&self) -> AppEntryView {
        AppEntryView {
            name: self.name@,
            command: self.command@,
            icon: match self.icon {
                Some(icon) => Some(icon@),
                None => None,
            },
            desktop_file: self.desktop_file@,
            score: self.score as int,
        }
    }
}

impl AppEntry {
    /// A copy of the entry that scores `score`.
    pub fn with_score(&self, score: i32) -> (copy: AppEntry)
        ensures
            copy@ == (AppEntryView { score: score as int, ..self@ }),
    {
        AppEntry {
            name: self.name.clone(),
            command: self.command.clone(),
            icon: match &self.icon {
                Some(icon) => Some(icon.clone()),
                None => None,
            },
            desktop_file: self.desktop_file.clone(),
            score,
        }
    }
}

/// The header of the section that is read.
pub open spec fn entry_header() -> Seq<char> {
    seq!['[', 'D', 'e', 's', 'k', 't', 'o', 'p', ' ', 'E', 'n', 't', 'r', 'y', ']']
}

/// Start of the line that gives the name.
pub open spec fn name_key() -> Seq<char> {
    seq!['N', 'a', 'm', 'e', '=']
}

/// Start of the line that gives the command.
pub open spec fn exec_key() -> Seq<char> {
    seq!['E', 'x', 'e', 'c', '=']
}

/// Start of the line that gives the icon.
pub open spec fn icon_key() -> Seq<char> {
    seq!['I', 'c', 'o', 'n', '=']
}

/// The line that hides an application.
pub open spec fn hidden_line() -> Seq<char> {
    seq!['N', 'o', 'D', 'i', 's', 'p', 'l', 'a', 'y', '=', 't', 'r', 'u', 'e']
}

/// The lines of `text`: its parts between line feeds. A text without a line
/// feed is one line, and a line feed at the end is followed by an empty
/// line.
pub open spec fn split_lines(text: Seq<char>) -> Seq<Seq<char>>
    decreases text.len(),
{
    if text.len() == 0 {
        seq![Seq::<char>::empty()]
    } else {
        let before = split_lines(text.drop_last());
        if text.last() == '\n' {
            before.push(Seq::<char>::empty())
        } else {
            before.update(before.len() - 1, before.last().push(text.last()))
        }
    }
}

/// The value of an `Exec=` line as a command: without the placeholders
/// `%f`, `%F`, `%u`, `%U`, `%c` and `%k`, taken out in this order, and
/// without white space round what is left.
pub open spec fn clean_exec(value: Seq<char>) -> Seq<char> {
    trim(
        without_code(
            without_code(
                without_code(
                    without_code(without_code(without_code(value, 'f'), 'F'), 'u'),
                    'U',
                ),
                'c',
            ),
            'k',
        ),
    )
}

/// What has been read of a descriptor.
pub struct Scan {
    /// Value of the first `Name=` line
    pub name: Option<Seq<char>>,
    /// Cleaned value of the last `Exec=` line
    pub command: Option<Seq<char>>,
    /// Value of the last `Icon=` line
    pub icon: Option<Seq<char>>,
    /// Whether the application asked not to be shown
    pub no_display: bool,
    /// Whether the section being read is `[Desktop Entry]`
    pub in_entry: bool,
}

/// Nothing read yet.
pub open spec fn scan_start() -> Scan {
    Scan { name: None, command: None, icon: None, no_display: false, in_entry: false }
}

/// `scan` after one more line, given without white space round it. A line
/// that starts with `[` opens a section; other lines count only in the
/// section `[Desktop Entry]`.
pub open spec fn scan_line(scan: Scan, line: Seq<char>) -> Scan {
    if line == entry_header() {
        Scan { in_entry: true, ..scan }
    } else if line.len() > 0 && line[0] == '[' {
        Scan { in_entry: false, ..scan }
    } else if !scan.in_entry {
        scan
    } else if starts_with(line, name_key()) {
        if scan.name is None {
            Scan { name: Some(line.skip(5)), ..scan }
        } else {
            scan
        }
    } else if starts_with(line, exec_key()) {
        Scan { command: Some(clean_exec(line.skip(5))), ..scan }
    } else if starts_with(line, icon_key()) {
        Scan { icon: Some(line.skip(5)), ..scan }
    } else if line == hidden_line() {
        Scan { no_display: true, ..scan }
    } else {
        scan
    }
}

/// What has been read after all of `lines`, each taken without the white
/// space round it.
pub open spec fn scan_lines(lines: Seq<Seq<char>>) -> Scan
    decreases lines.len(),
{
    if lines.len() == 0 {
        scan_start()
    } else {
        scan_line(scan_lines(lines.drop_last()), trim(lines.last()))
    }
}

/// The application that the descriptor `content` describes, read from the
/// file `path`: none where the descriptor hides it, or gives no name, or no
/// command.
pub open spec fn parsed_entry(content: Seq<char>, path: Seq<char>) -> Option<AppEntryView> {
    let scan = scan_lines(split_lines(content));
    if scan.no_display || scan.name is None || scan.command is None {
        None
    } else {
        Some(
            AppEntryView {
                name: scan.name.unwrap(),
                command: scan.command.unwrap(),
                icon: scan.icon,
                desktop_file: path,
                score: 0,
            },
        )
    }
}

/// A text has at least one line.
pub proof fn lemma_split_lines_nonempty(text: Seq<char>)
    ensures
        split_lines(text).len() >= 1,
    decreases text.len(),
{
    if text.len() > 0 {
        lemma_split_lines_nonempty(text.drop_last());
    }
}

/// `lines` put together again, with a line feed between each two.
pub open spec fn join_lines(lines: Seq<Seq<char>>) -> Seq<char>
    decreases lines.len(),
{
    if lines.len() == 0 {
        Seq::empty()
    } else if lines.len() == 1 {
        lines[0]
    } else {
        join_lines(lines.drop_last()) + seq!['\n'] + lines.last()
    }
}

/// The lines of a text hold no line feed, and put together again they are
/// the text.
pub proof fn lemma_split_lines_joins(text: Seq<char>)
    ensures
        join_lines(split_lines(text)) == text,
        forall|i: int, j: int|
            0 <= i < split_lines(text).len() && 0 <= j < split_lines(text)[i].len() ==> (
            #[trigger] split_lines(text)[i][j]) != '\n',
    decreases text.len(),
{
    let lines = split_lines(text);
    if text.len() == 0 {
        assert(join_lines(lines) == text);
    } else {
        let before = split_lines(text.drop_last());
        lemma_split_lines_joins(text.drop_last());
        lemma_split_lines_nonempty(text.drop_last());
        if text.last() == '\n' {
            assert(lines.drop_last() == before);
        } else {
            assert(lines.drop_last() == before.drop_last());
            assert(text.drop_last().push(text.last()) == text);
        }
    }
}

struct ScanState {
    name: Option<Vec<char>>,
    command: Option<Vec<char>>,
    icon: Option<Vec<char>>,
    no_display: bool,
    in_entry: bool,
}

impl View for ScanState {
    type V = Scan;

    closed spec fn view(&self) -> Scan {
        Scan {
            name: match self.name {
                Some(v) => Some(v@),
                None => None,
            },
            command: match self.command {
                Some(v) => Some(v@),
                None => None,
            },
            icon: match self.icon {
                Some(v) => Some(v@),
                None => None,
            },
            no_display: self.no_display,
            in_entry: self.in_entry,
        }
    }
}

fn is_line(line: &Vec<char>, text: &Vec<char>) -> (same: bool)
    ensures
        same == (line@ == text@),
{
    assert(line@.len() == text@.len() ==> line@.subrange(0, text@.len() as int) == line@);
    line.len() == text.len() && has_prefix(line, text)
}

fn value_of(line: &Vec<char>) -> (value: Vec<char>)
    requires
        line.len() >= 5,
    ensures
        value@ == line@.skip(5),
{
    slice_of(line, 5, line.len())
}

fn cleaned(value: &Vec<char>) -> (command: Vec<char>)
    ensures
        command@ == clean_exec(value@),
{
    let a = strip_code(value, 'f');
    let b = strip_code(&a, 'F');
    let c = strip_code(&b, 'u');
    let d = strip_code(&c, 'U');
    let e = strip_code(&d, 'c');
    let f = strip_code(&e, 'k');
    trimmed(&f)
}

fn read_line(state: &mut ScanState, raw: &Vec<char>)
    ensures
        final(state)@ == scan_line(old(state)@, trim(raw@)),
{
    let line = trimmed(raw);
    let header: Vec<char> = vec![
        '[',
        'D',
        'e',
        's',
        'k',
        't',
        'o',
        'p',
        ' ',
        'E',
        'n',
        't',
        'r',
        'y',
        ']',
    ];
    let name_key: Vec<char> = vec!['N', 'a', 'm', 'e', '='];
    let exec_key: Vec<char> = vec!['E', 'x', 'e', 'c', '='];
    let icon_key: Vec<char> = vec!['I', 'c', 'o', 'n', '='];
    let hidden: Vec<char> = vec![
        'N',
        'o',
        'D',
        'i',
        's',
        'p',
        'l',
        'a',
        'y',
        '=',
        't',
        'r',
        'u',
        'e',
    ];
    if is_line(&line, &header) {
        state.in_entry = true;
    } else if line.len() > 0 && line[0] == '[' {
        state.in_entry = false;
    } else if !state.in_entry {
    } else if has_prefix(&line, &name_key) {
        if state.name.is_none() {
            state.name = Some(value_of(&line));
        }
    } else if has_prefix(&line, &exec_key) {
        let value = value_of(&line);
        state.command = Some(cleaned(&value));
    } else if has_prefix(&line, &icon_key) {
        state.icon = Some(value_of(&line));
    } else if is_line(&line, &hidden) {
        state.no_display = true;
    }
}

/// Reads the descriptor `content` of the file `path`.
pub fn parse_desktop_file(content: &str, path: &str) -> (entry: Option<AppEntry>)
    ensures
        match parsed_entry(content@, path@) {
            Some(expected) => entry matches Some(e) && e@ == expected,
            None => entry is None,
        },
{
    let text = chars_of(content);
    let mut state = ScanState {
        name: None,
        command: None,
        icon: None,
        no_display: false,
        in_entry: false,
    };
    let mut line: Vec<char> = Vec::new();
    let mut i: usize = 0;
    while i < text.len()
        invariant
            i <= text.len(),
            state@ == scan_lines(split_lines(text@.take(i as int)).drop_last()),
            line@ == split_lines(text@.take(i as int)).last(),
        decreases text.len() - i,
    {
        let ghost before = split_lines(text@.take(i as int));
        proof {
            lemma_split_lines_nonempty(text@.take(i as int));
            assert(text@.take(i as int + 1).drop_last() == text@.take(i as int));
        }
        if text[i] == '\n' {
            assert(before.push(Seq::<char>::empty()).drop_last() == before);
            read_line(&mut state, &line);
            line = Vec::new();
        } else {
            assert(before.update(before.len() - 1, before.last().push(text@[i as int])).drop_last()
                == before.drop_last());
            line.push(text[i]);
        }
        i = i + 1;
    }
    proof {
        lemma_split_lines_nonempty(text@);
        assert(text@.take(i as int) == text@);
    }
    read_line(&mut state, &line);
    if state.no_display {
        return None;
    }
    match (state.name, state.command) {
        (Some(name), Some(command)) => Some(
            AppEntry {
                name: string_of(&name),
                command: string_of(&command),
                icon: match state.icon {
                    Some(icon) => Some(string_of(&icon)),
                    None => None,
                },
                desktop_file: path.to_owned(),
                score: 0,
            },
        ),
        _ => None,
    }
}

} // verus!
