//! Command-completion tags and their protocol text.

use vstd::prelude::*;

use crate::messages::CommandComplete;

verus! {

/// The character of one decimal digit, for `0 <= d <= 9`.
pub open spec fn digit_char(d: int) -> char {
    if d == 0 {
        '0'
    } else if d == 1 {
        '1'
    } else if d == 2 {
        '2'
    } else if d == 3 {
        '3'
    } else if d == 4 {
        '4'
    } else if d == 5 {
        '5'
    } else if d == 6 {
        '6'
    } else if d == 7 {
        '7'
    } else if d == 8 {
        '8'
    } else {
        '9'
    }
}

/// The decimal numeral of `n`: most significant digit first, no sign, no
/// leading zero except for zero itself.
pub open spec fn decimal(n: nat) -> Seq<char>
    decreases n,
{
    if n < 10 {
        seq![digit_char(n as int)]
    } else {
        decimal(n / 10).push(digit_char((n % 10) as int))
    }
}

/// The protocol text of a completion with the given command and row count:
/// the command alone, or the command, one space and the count in decimal.
pub open spec fn tag_text(command: Seq<char>, rows: Option<usize>) -> Seq<char> {
    match rows {
        Some(n) => command + seq![' '] + decimal(n as nat),
        None => command,
    }
}

/// Appends `c` to `s`. `String::push` adds the given character at the end of
/// the string and leaves what was there in place.
pub assume_specification[ String::push ](s: &mut String, c: char)
    ensures
        final(s)@ == old(s)@.push(c),
;

fn digit(d: usize) -> (c: char)
    requires
        d < 10,
    ensures
        c == digit_char(d as int),
{
    if d == 0 {
        '0'
    } else if d == 1 {
        '1'
    } else if d == 2 {
        '2'
    } else if d == 3 {
        '3'
    } else if d == 4 {
        '4'
    } else if d == 5 {
        '5'
    } else if d == 6 {
        '6'
    } else if d == 7 {
        '7'
    } else if d == 8 {
        '8'
    } else {
        '9'
    }
}

/// Appends the decimal numeral of `n` to `out`.
pub fn push_decimal(out: &mut String, n: usize)
    ensures
        final(out)@ == old(out)@ + decimal(n as nat),
    decreases n,
{
    if n >= 10 {
        push_decimal(out, n / 10);
    }
    out.push(digit(n % 10));
}

/// The status of a completed command: its name and, where the command reports
/// one, the number of rows it returned or affected.
#[derive(Debug, PartialEq, Eq)]
pub struct Tag {
    command: String,
    rows: Option<usize>,
}

/// A tag as plain values.
pub ghost struct TagView {
    pub command: Seq<char>,
    pub rows: Option<usize>,
}

impl View for Tag {
    type V = TagView;

    closed spec fn view(&self) -> TagView {
        TagView { command: self.command@, rows: self.rows }
    }
}

impl Tag {
    /// The tag of a query that returned `rows` rows.
    pub fn new_for_query(rows: usize) -> (tag: Tag)
        ensures
            tag@ == (TagView { command: "SELECT"@, rows: Some(rows) }),
    {
        Tag { command: "SELECT".to_owned(), rows: Some(rows) }
    }

    /// The tag of a command that is not a query.
    pub fn new_for_execution(command: &str, rows: Option<usize>) -> (tag: Tag)
        ensures
            tag@ == (TagView { command: command@, rows }),
    {
        Tag { command: command.to_owned(), rows }
    }

    /// The text of this tag as the completion message carries it.
    pub fn text(&self) -> (s: String)
        ensures
            s@ == tag_text(self@.command, self@.rows),
    {
        let mut s = self.command.clone();
        match self.rows {
            Some(n) => {
                s.push(' ');
                push_decimal(&mut s, n);
                assert(s@ =~= self@.command + seq![' '] + decimal(n as nat));
            },
            None => {},
        }
        s
    }
}

/// The completion message of a tag carries the tag's text and nothing else.
impl From<Tag> for CommandComplete {
    fn from(tag: Tag) -> (cc: CommandComplete)
        ensures
            cc@ == tag_text(tag@.command, tag@.rows),
    {
        CommandComplete::new(tag.text())
    }
}

/// Two strings with the same text need not be one value to the verifier, so
/// the conversion is stated over the message's text, in the `ensures` of
/// `from`, and not as an equation between messages.
impl vstd::std_specs::convert::FromSpecImpl<Tag> for CommandComplete {
    open spec fn obeys_from_spec() -> bool {
        false
    }

    open spec fn from_spec(tag: Tag) -> CommandComplete {
        choose|cc: CommandComplete| cc@ == tag_text(tag@.command, tag@.rows)
    }
}

} // verus!
