//! The colours that have a name.

use crate::text::{lookup, lower, spec_lookup, spec_lower, table_view, to_chars};
use crate::types::Color;
use vstd::prelude::*;

verus! {

/// What a colour argument may be, for help texts.
pub const COLOR_HELP: &'static str =
    "Color value as rrggbb, rr, or name (black, white, red, green, blue, yellow, cyan, magenta, orange, purple, pink)";

/// The colours that have a name, under their names in lower case.
pub open spec fn spec_color_table() -> Seq<(Seq<char>, Color)> {
    seq![
        ("black"@, Color { red: 0x00, green: 0x00, blue: 0x00 }),
        ("white"@, Color { red: 0xff, green: 0xff, blue: 0xff }),
        ("red"@, Color { red: 0xff, green: 0x00, blue: 0x00 }),
        ("green"@, Color { red: 0x00, green: 0xff, blue: 0x00 }),
        ("blue"@, Color { red: 0x00, green: 0x00, blue: 0xff }),
        ("yellow"@, Color { red: 0xff, green: 0xff, blue: 0x00 }),
        ("cyan"@, Color { red: 0x00, green: 0xff, blue: 0xff }),
        ("magenta"@, Color { red: 0xff, green: 0x00, blue: 0xff }),
        ("orange"@, Color { red: 0xff, green: 0xa5, blue: 0x00 }),
        ("purple"@, Color { red: 0x80, green: 0x00, blue: 0x80 }),
        ("pink"@, Color { red: 0xff, green: 0xc0, blue: 0xcb }),
    ]
}

/// The table of the colours that have a name.
pub fn color_table() -> (table: Vec<(&'static str, Color)>)
    ensures
        table_view(table@) == spec_color_table(),
{
    let table = vec![
        ("black", Color { red: 0x00, green: 0x00, blue: 0x00 }),
        ("white", Color { red: 0xff, green: 0xff, blue: 0xff }),
        ("red", Color { red: 0xff, green: 0x00, blue: 0x00 }),
        ("green", Color { red: 0x00, green: 0xff, blue: 0x00 }),
        ("blue", Color { red: 0x00, green: 0x00, blue: 0xff }),
        ("yellow", Color { red: 0xff, green: 0xff, blue: 0x00 }),
        ("cyan", Color { red: 0x00, green: 0xff, blue: 0xff }),
        ("magenta", Color { red: 0xff, green: 0x00, blue: 0xff }),
        ("orange", Color { red: 0xff, green: 0xa5, blue: 0x00 }),
        ("purple", Color { red: 0x80, green: 0x00, blue: 0x80 }),
        ("pink", Color { red: 0xff, green: 0xc0, blue: 0xcb }),
    ];
    assert(table_view(table@) =~= spec_color_table());
    table
}

/// The names of the colours that have one, in the order of the table.
pub fn color_names() -> (names: Vec<&'static str>)
    ensures
        names@.len() == spec_color_table().len(),
        forall|i: int| 0 <= i < names@.len() ==> (#[trigger] names@[i])@ == spec_color_table()[i].0,
{
    let table = color_table();
    let mut names: Vec<&'static str> = Vec::new();
    let mut i: usize = 0;
    while i < table.len()
        invariant
            i <= table.len(),
            table_view(table@) == spec_color_table(),
            names@.len() == i,
            forall|j: int| 0 <= j < i ==> (#[trigger] names@[j])@ == spec_color_table()[j].0,
        decreases table.len() - i,
    {
        proof {
            assert(table_view(table@)[i as int] == (table@[i as int].0@, table@[i as int].1));
        }
        names.push(table[i].0);
        i += 1;
    }
    names
}

/// The colour of a name, whatever the case of its ASCII letters.
pub fn lookup_color(name: &str) -> (color: Option<Color>)
    ensures
        color == spec_lookup(spec_color_table(), spec_lower(name@)),
{
    let chars = to_chars(name);
    let lowered = lower(chars.as_slice());
    let table = color_table();
    lookup(table.as_slice(), lowered.as_slice())
}

} // verus!
