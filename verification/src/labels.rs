//! The fixed, ordered table of diagnosis codes.

use vstd::prelude::*;

verus! {

/// Number of classes the network distinguishes.
pub const TOTAL_CLASSES: usize = 9;

/// The diagnosis codes, in the order of the network's outputs.
pub const CLASSES: [&'static str; TOTAL_CLASSES] = [
    "ARMD",
    "CNV",
    "CSR",
    "DME",
    "DR",
    "DRUSEN",
    "GC",
    "MH",
    "NORMAL",
];

/// `CLASSES` as plain text. Index `i` names the same class for as long as
/// the program runs.
pub open spec fn class_table() -> Seq<Seq<char>> {
    seq![
        "ARMD"@,
        "CNV"@,
        "CSR"@,
        "DME"@,
        "DR"@,
        "DRUSEN"@,
        "GC"@,
        "MH"@,
        "NORMAL"@,
    ]
}

/// The code of class `index`.
pub fn class_name(index: usize) -> (name: &'static str)
    requires
        index < TOTAL_CLASSES,
    ensures
        name@ == class_table()[index as int],
{
    CLASSES[index]
}

/// The whole table as owned strings, in order.
pub fn classes() -> (all: [String; TOTAL_CLASSES])
    ensures
        all.deep_view() == class_table(),
{
    let all = [
        String::from_str(class_name(0)),
        String::from_str(class_name(1)),
        String::from_str(class_name(2)),
        String::from_str(class_name(3)),
        String::from_str(class_name(4)),
        String::from_str(class_name(5)),
        String::from_str(class_name(6)),
        String::from_str(class_name(7)),
        String::from_str(class_name(8)),
    ];
    assert(all.deep_view() =~= class_table());
    all
}

/// No two entries of the table are the same code, so a code names one
/// class only.
pub proof fn lemma_codes_are_distinct(first: int, second: int)
    requires
        0 <= first < second < TOTAL_CLASSES,
    ensures
        class_table()[first] != class_table()[second],
{
    reveal_strlit("ARMD");
    reveal_strlit("CNV");
    reveal_strlit("CSR");
    reveal_strlit("DME");
    reveal_strlit("DR");
    reveal_strlit("DRUSEN");
    reveal_strlit("GC");
    reveal_strlit("MH");
    reveal_strlit("NORMAL");
    let one = class_table()[first];
    let other = class_table()[second];
    assert(one.len() != other.len() || one[0] != other[0] || one[1] != other[1]);
}

} // verus!
