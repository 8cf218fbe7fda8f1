//! The text of copied rows: fields quoted as in a comma-separated file.

use crate::text::string_push;
use vstd::prelude::*;
use vstd::string::*;

verus! {

/// The character makes a field need quotes: the delimiter, a space or a tab.
pub open spec fn is_breaking(c: char) -> bool {
    c == ',' || c == ' ' || c == '\t'
}

/// The field holds a character that makes it need quotes.
pub open spec fn needs_quotes(field: Seq<char>) -> bool {
    exists|i: int| 0 <= i < field.len() && is_breaking(#[trigger] field[i])
}

/// The field with every quote character doubled.
pub open spec fn doubled(field: Seq<char>) -> Seq<char>
    decreases field.len(),
{
    if field.len() == 0 {
        Seq::empty()
    } else if field.last() == '"' {
        doubled(field.drop_last()).push('"').push('"')
    } else {
        doubled(field.drop_last()).push(field.last())
    }
}

/// The field as it stands in a copied row: its quotes doubled, and wrapped in
/// quotes where it holds the delimiter, a space or a tab.
pub open spec fn csv_field(field: Seq<char>) -> Seq<char> {
    if needs_quotes(field) {
        seq!['"'] + doubled(field) + seq!['"']
    } else {
        doubled(field)
    }
}

/// The fields as one copied row, with a comma between them.
pub open spec fn csv_row(fields: Seq<String>) -> Seq<char>
    decreases fields.len(),
{
    if fields.len() == 0 {
        Seq::empty()
    } else if fields.len() == 1 {
        csv_field(fields[0]@)
    } else {
        csv_row(fields.drop_last()) + seq![','] + csv_field(fields.last()@)
    }
}

/// Writes one field as it stands in a copied row.
pub fn quote_field(field: &String) -> (out: String)
    ensures
        out@ == csv_field(field@),
{
    let text: &str = field.as_str();
    let len: usize = text.unicode_len();
    let mut body: String = String::new();
    let mut breaking: bool = false;
    let mut i: usize = 0;
    while i < len
        invariant
            i <= len,
            len == text@.len(),
            text@ == field@,
            body@ == doubled(text@.take(i as int)),
            breaking == needs_quotes(text@.take(i as int)),
        decreases len - i,
    {
        let c: char = text.get_char(i);
        proof {
            let before = text@.take(i as int);
            let now = text@.take(i + 1);
            assert(now.drop_last() =~= before);
            assert(now.last() == c);
        }
        if c == '"' {
            string_push(&mut body, '"');
            string_push(&mut body, '"');
        } else {
            string_push(&mut body, c);
        }
        if c == ',' || c == ' ' || c == '\t' {
            breaking = true;
        }
        i = i + 1;
    }
    proof {
        assert(text@.take(len as int) =~= text@);
    }
    if breaking {
        let mut out: String = String::from_str("\"");
        proof {
            reveal_strlit("\"");
        }
        out.append(body.as_str());
        out.append("\"");
        out
    } else {
        body
    }
}

/// Writes the fields as one copied row.
pub fn quote_row(fields: &Vec<String>) -> (out: String)
    ensures
        out@ == csv_row(fields@),
{
    let mut out: String = String::new();
    let mut i: usize = 0;
    while i < fields.len()
        invariant
            i <= fields.len(),
            out@ == csv_row(fields@.take(i as int)),
        decreases fields.len() - i,
    {
        proof {
            assert(fields@.take(i + 1).drop_last() =~= fields@.take(i as int));
        }
        if i > 0 {
            string_push(&mut out, ',');
        }
        let field: String = quote_field(&fields[i]);
        out.append(field.as_str());
        i = i + 1;
    }
    proof {
        assert(fields@.take(i as int) =~= fields@);
    }
    out
}

} // verus!
