//! The Markdown report of a comparison: a summary of the counts, the details
//! of each struct, and the enums that are and are not migrated.
use vstd::prelude::*;
use crate::comparison::{ComparisonResults, EnumComparison, MigrationStatus, StructComparison};
use crate::order::texts;
use crate::text::push_char;

verus! {

/// The decimal digit of `d`.
pub open spec fn digit(d: nat) -> char {
    seq!['0', '1', '2', '3', '4', '5', '6', '7', '8', '9'][d as int]
}

/// The decimal notation of `n`, without leading zeros.
pub open spec fn decimal(n: nat) -> Seq<char>
    decreases n,
{
    if n < 10 {
        seq![digit(n)]
    } else {
        decimal(n / 10) + seq![digit(n % 10)]
    }
}

/// The length of one of the lists of a struct comparison: `which` is 0 for
/// the common methods, 1 for the methods only the wrapped crate has, 2 for
/// the common functions and 3 for the functions only the wrapped crate has.
pub open spec fn list_len(c: StructComparison, which: int) -> nat {
    if which == 0 {
        c.common_methods@.len()
    } else if which == 1 {
        c.rust_only_methods@.len()
    } else if which == 2 {
        c.common_functions@.len()
    } else {
        c.rust_only_functions@.len()
    }
}

/// The sum of `list_len(c, which)` over the comparisons `cs`.
pub open spec fn total_len(cs: Seq<StructComparison>, which: int) -> nat
    decreases cs.len(),
{
    if cs.len() == 0 {
        0
    } else {
        total_len(cs.drop_last(), which) + list_len(cs.last(), which)
    }
}

/// How many of the comparisons `cs` have the status `st`.
pub open spec fn count_status(cs: Seq<StructComparison>, st: MigrationStatus) -> nat
    decreases cs.len(),
{
    if cs.len() == 0 {
        0
    } else {
        count_status(cs.drop_last(), st) + if cs.last().status == st {
            1nat
        } else {
            0nat
        }
    }
}

/// How many of the enums `es` are migrated (`migrated`) or not.
pub open spec fn count_enums(es: Seq<EnumComparison>, migrated: bool) -> nat
    decreases es.len(),
{
    if es.len() == 0 {
        0
    } else {
        count_enums(es.drop_last(), migrated) + if (es.last().status
            == MigrationStatus::FullyMigrated) == migrated {
            1nat
        } else {
            0nat
        }
    }
}

/// A line of a label and a number.
pub open spec fn count_line(label: Seq<char>, n: nat) -> Seq<char> {
    label + decimal(n) + seq!['\n']
}

/// One line for each of `names`, each after `prefix`.
pub open spec fn bullet_lines(names: Seq<Seq<char>>, prefix: Seq<char>) -> Seq<char>
    decreases names.len(),
{
    if names.len() == 0 {
        Seq::empty()
    } else {
        bullet_lines(names.drop_last(), prefix) + prefix + names.last() + seq!['\n']
    }
}

/// The summary of the counts.
pub open spec fn summary_text(r: ComparisonResults) -> Seq<char> {
    let s = r.structs@;
    "## Summary\n"@ + count_line(
        "  - ✅ Fully Migrated Structs: "@,
        count_status(s, MigrationStatus::FullyMigrated),
    ) + count_line(
        "  - ⚠️ Partially Migrated Structs: "@,
        count_status(s, MigrationStatus::PartiallyMigrated),
    ) + count_line(
        "  - ❌ Not Migrated Structs: "@,
        count_status(s, MigrationStatus::NotMigrated),
    ) + count_line("  - ✅ Migrated Enums: "@, count_enums(r.enums@, true)) + count_line(
        "  - ❌ Not Migrated Enums: "@,
        count_enums(r.enums@, false),
    ) + count_line("  - ✅ Total Migrated Methods: "@, total_len(s, 0)) + count_line(
        "  - ❌ Total Not Migrated Methods: "@,
        total_len(s, 1),
    ) + count_line("  - ✅ Total Migrated Functions: "@, total_len(s, 2)) + count_line(
        "  - ❌ Total Not Migrated Functions: "@,
        total_len(s, 3),
    )
}

/// One heading line for each fully migrated struct.
pub open spec fn fully_migrated_lines(cs: Seq<StructComparison>) -> Seq<char>
    decreases cs.len(),
{
    if cs.len() == 0 {
        Seq::empty()
    } else {
        fully_migrated_lines(cs.drop_last()) + if cs.last().status
            == MigrationStatus::FullyMigrated {
            "  ### ✅ "@ + cs.last().name@ + seq!['\n']
        } else {
            Seq::empty()
        }
    }
}

/// The heading line of a struct that is not fully migrated.
pub open spec fn struct_heading(c: StructComparison) -> Seq<char> {
    let icon = if c.status == MigrationStatus::PartiallyMigrated {
        "⚠️"@
    } else {
        "❌"@
    };
    "  ### "@ + icon + seq![' '] + c.name@ + seq!['\n']
}

/// The counts of a struct that is not fully migrated.
pub open spec fn struct_counts(c: StructComparison) -> Seq<char> {
    "    Summary\n"@ + count_line("      - Migrated methods: "@, list_len(c, 0)) + count_line(
        "      - Not migrated methods: "@,
        list_len(c, 1),
    ) + count_line("      - Migrated functions: "@, list_len(c, 2)) + count_line(
        "      - Not migrated functions: "@,
        list_len(c, 3),
    )
}

/// A titled list of `names`, nothing where there are none.
pub open spec fn missing_list(title: Seq<char>, names: Seq<Seq<char>>) -> Seq<char> {
    if names.len() > 0 {
        title + bullet_lines(names, "      - "@)
    } else {
        Seq::empty()
    }
}

/// The details of a struct that is not fully migrated.
pub open spec fn struct_details(c: StructComparison) -> Seq<char> {
    struct_heading(c) + struct_counts(c) + missing_list(
        "    ❌ Methods Not Yet Migrated\n"@,
        texts(c.rust_only_methods@),
    ) + missing_list("    ❌ Functions Not Yet Migrated\n"@, texts(c.rust_only_functions@))
}

/// The details of each struct of status `st`.
pub open spec fn details_with_status(cs: Seq<StructComparison>, st: MigrationStatus) -> Seq<char>
    decreases cs.len(),
{
    if cs.len() == 0 {
        Seq::empty()
    } else {
        details_with_status(cs.drop_last(), st) + if cs.last().status == st {
            struct_details(cs.last())
        } else {
            Seq::empty()
        }
    }
}

/// One line for each enum that is migrated (`migrated`) or not.
pub open spec fn enum_lines(es: Seq<EnumComparison>, migrated: bool) -> Seq<char>
    decreases es.len(),
{
    if es.len() == 0 {
        Seq::empty()
    } else {
        enum_lines(es.drop_last(), migrated) + if (es.last().status
            == MigrationStatus::FullyMigrated) == migrated {
            "  - "@ + es.last().name@ + seq!['\n']
        } else {
            Seq::empty()
        }
    }
}

/// The whole report of `r`.
pub open spec fn report_text(r: ComparisonResults) -> Seq<char> {
    "# Method Comparison Report: rustxlsxwriter to wasm-xlsxwriter Migration\n\n"@ + summary_text(r)
        + "## Details of Structs\n"@ + fully_migrated_lines(r.structs@) + details_with_status(
        r.structs@,
        MigrationStatus::PartiallyMigrated,
    ) + details_with_status(r.structs@, MigrationStatus::NotMigrated)
        + "\n## ✅ Migrated Enums\n"@ + enum_lines(r.enums@, true)
        + "\n## ❌ Not Migrated Enums\n"@ + enum_lines(r.enums@, false)
}

/// Appends the decimal notation of `n` to `out`.
pub fn push_decimal(out: &mut String, n: usize)
    ensures
        final(out)@ == old(out)@ + decimal(n as nat),
    decreases n,
{
    if n >= 10 {
        push_decimal(out, n / 10);
    }
    let d = n % 10;
    let c = if d == 0 {
        '0'
    } else if d == 1 {
        '1'
    } else if d == 2 {
        '2'
    } else if d == 3 {
        '3'
    } else if d == 4 {
        '4'
    } else if d == 5 {
        '5'
    } else if d == 6 {
        '6'
    } else if d == 7 {
        '7'
    } else if d == 8 {
        '8'
    } else {
        '9'
    };
    push_char(out, c);
    assert(final(out)@ =~= old(out)@ + decimal(n as nat));
}

proof fn lemma_total_prefix(cs: Seq<StructComparison>, i: int, which: int)
    requires
        0 <= i <= cs.len(),
    ensures
        total_len(cs.subrange(0, i), which) <= total_len(cs, which),
    decreases cs.len(),
{
    if i < cs.len() {
        lemma_total_prefix(cs.drop_last(), i, which);
        assert(cs.drop_last().subrange(0, i) =~= cs.subrange(0, i));
    } else {
        assert(cs.subrange(0, i) =~= cs);
    }
}

/// How many of `cs` have the status `st`.
fn count_with_status(cs: &Vec<StructComparison>, st: MigrationStatus) -> (r: usize)
    ensures
        r == count_status(cs@, st),
{
    let mut n: usize = 0;
    let mut i: usize = 0;
    while i < cs.len()
        invariant
            i <= cs.len(),
            n <= i,
            n == count_status(cs@.subrange(0, i as int), st),
        decreases cs.len() - i,
    {
        assert(cs@.subrange(0, i + 1).drop_last() =~= cs@.subrange(0, i as int));
        if cs[i].status == st {
            n = n + 1;
        }
        i = i + 1;
    }
    assert(cs@.subrange(0, i as int) =~= cs@);
    n
}

/// How many of `es` are migrated (`migrated`) or not.
fn count_enums_migrated(es: &Vec<EnumComparison>, migrated: bool) -> (r: usize)
    ensures
        r == count_enums(es@, migrated),
{
    let mut n: usize = 0;
    let mut i: usize = 0;
    while i < es.len()
        invariant
            i <= es.len(),
            n <= i,
            n == count_enums(es@.subrange(0, i as int), migrated),
        decreases es.len() - i,
    {
        assert(es@.subrange(0, i + 1).drop_last() =~= es@.subrange(0, i as int));
        if (es[i].status == MigrationStatus::FullyMigrated) == migrated {
            n = n + 1;
        }
        i = i + 1;
    }
    assert(es@.subrange(0, i as int) =~= es@);
    n
}

fn list_length(c: &StructComparison, which: u8) -> (r: usize)
    ensures
        r == list_len(*c, which as int),
{
    if which == 0 {
        c.common_methods.len()
    } else if which == 1 {
        c.rust_only_methods.len()
    } else if which == 2 {
        c.common_functions.len()
    } else {
        c.rust_only_functions.len()
    }
}

/// The sum of the lengths of one list over `cs`.
fn sum_lengths(cs: &Vec<StructComparison>, which: u8) -> (r: usize)
    requires
        total_len(cs@, which as int) <= usize::MAX,
    ensures
        r == total_len(cs@, which as int),
{
    let mut n: usize = 0;
    let mut i: usize = 0;
    while i < cs.len()
        invariant
            i <= cs.len(),
            total_len(cs@, which as int) <= usize::MAX,
            n == total_len(cs@.subrange(0, i as int), which as int),
        decreases cs.len() - i,
    {
        assert(cs@.subrange(0, i + 1).drop_last() =~= cs@.subrange(0, i as int));
        proof {
            lemma_total_prefix(cs@, i + 1, which as int);
        }
        n = n + list_length(&cs[i], which);
        i = i + 1;
    }
    assert(cs@.subrange(0, i as int) =~= cs@);
    n
}

fn push_count_line(out: &mut String, label: &str, n: usize)
    ensures
        final(out)@ == old(out)@ + count_line(label@, n as nat),
{
    out.append(label);
    push_decimal(out, n);
    push_char(out, '\n');
    assert(final(out)@ =~= old(out)@ + count_line(label@, n as nat));
}

fn push_bullets(out: &mut String, names: &Vec<String>, prefix: &str)
    ensures
        final(out)@ == old(out)@ + bullet_lines(texts(names@), prefix@),
{
    let ghost start = out@;
    let ghost all = texts(names@);
    let mut i: usize = 0;
    while i < names.len()
        invariant
            i <= names.len(),
            all == texts(names@),
            out@ == start + bullet_lines(all.subrange(0, i as int), prefix@),
        decreases names.len() - i,
    {
        assert(all.subrange(0, i + 1).drop_last() =~= all.subrange(0, i as int));
        out.append(prefix);
        out.append(names[i].as_str());
        push_char(out, '\n');
        assert(out@ =~= start + bullet_lines(all.subrange(0, i + 1), prefix@));
        i = i + 1;
    }
    assert(all.subrange(0, i as int) =~= all);
}

fn push_struct_heading(out: &mut String, c: &StructComparison)
    ensures
        final(out)@ == old(out)@ + struct_heading(*c),
{
    out.append("  ### ");
    if c.status == MigrationStatus::PartiallyMigrated {
        out.append("⚠️");
    } else {
        out.append("❌");
    }
    push_char(out, ' ');
    out.append(c.name.as_str());
    push_char(out, '\n');
    assert(final(out)@ =~= old(out)@ + struct_heading(*c));
}

fn push_struct_counts(out: &mut String, c: &StructComparison)
    ensures
        final(out)@ == old(out)@ + struct_counts(*c),
{
    out.append("    Summary\n");
    push_count_line(out, "      - Migrated methods: ", c.common_methods.len());
    push_count_line(out, "      - Not migrated methods: ", c.rust_only_methods.len());
    push_count_line(out, "      - Migrated functions: ", c.common_functions.len());
    push_count_line(out, "      - Not migrated functions: ", c.rust_only_functions.len());
    assert(final(out)@ =~= old(out)@ + struct_counts(*c));
}

fn push_missing_list(out: &mut String, title: &str, names: &Vec<String>)
    ensures
        final(out)@ == old(out)@ + missing_list(title@, texts(names@)),
{
    if names.len() > 0 {
        out.append(title);
        push_bullets(out, names, "      - ");
        assert(final(out)@ =~= old(out)@ + missing_list(title@, texts(names@)));
    } else {
        assert(final(out)@ =~= old(out)@ + missing_list(title@, texts(names@)));
    }
}

fn push_struct_details(out: &mut String, c: &StructComparison)
    ensures
        final(out)@ == old(out)@ + struct_details(*c),
{
    push_struct_heading(out, c);
    push_struct_counts(out, c);
    push_missing_list(out, "    ❌ Methods Not Yet Migrated\n", &c.rust_only_methods);
    push_missing_list(out, "    ❌ Functions Not Yet Migrated\n", &c.rust_only_functions);
    assert(final(out)@ =~= old(out)@ + struct_details(*c));
}

fn push_fully_migrated(out: &mut String, cs: &Vec<StructComparison>)
    ensures
        final(out)@ == old(out)@ + fully_migrated_lines(cs@),
{
    let ghost start = out@;
    let mut i: usize = 0;
    while i < cs.len()
        invariant
            i <= cs.len(),
            out@ == start + fully_migrated_lines(cs@.subrange(0, i as int)),
        decreases cs.len() - i,
    {
        assert(cs@.subrange(0, i + 1).drop_last() =~= cs@.subrange(0, i as int));
        if cs[i].status == MigrationStatus::FullyMigrated {
            out.append("  ### ✅ ");
            out.append(cs[i].name.as_str());
            push_char(out, '\n');
        }
        assert(out@ =~= start + fully_migrated_lines(cs@.subrange(0, i + 1)));
        i = i + 1;
    }
    assert(cs@.subrange(0, i as int) =~= cs@);
}

fn push_details(out: &mut String, cs: &Vec<StructComparison>, st: MigrationStatus)
    ensures
        final(out)@ == old(out)@ + details_with_status(cs@, st),
{
    let ghost start = out@;
    let mut i: usize = 0;
    while i < cs.len()
        invariant
            i <= cs.len(),
            out@ == start + details_with_status(cs@.subrange(0, i as int), st),
        decreases cs.len() - i,
    {
        assert(cs@.subrange(0, i + 1).drop_last() =~= cs@.subrange(0, i as int));
        if cs[i].status == st {
            push_struct_details(out, &cs[i]);
        }
        assert(out@ =~= start + details_with_status(cs@.subrange(0, i + 1), st));
        i = i + 1;
    }
    assert(cs@.subrange(0, i as int) =~= cs@);
}

fn push_enum_lines(out: &mut String, es: &Vec<EnumComparison>, migrated: bool)
    ensures
        final(out)@ == old(out)@ + enum_lines(es@, migrated),
{
    let ghost start = out@;
    let mut i: usize = 0;
    while i < es.len()
        invariant
            i <= es.len(),
            out@ == start + enum_lines(es@.subrange(0, i as int), migrated),
        decreases es.len() - i,
    {
        assert(es@.subrange(0, i + 1).drop_last() =~= es@.subrange(0, i as int));
        if (es[i].status == MigrationStatus::FullyMigrated) == migrated {
            out.append("  - ");
            out.append(es[i].name.as_str());
            push_char(out, '\n');
        }
        assert(out@ =~= start + enum_lines(es@.subrange(0, i + 1), migrated));
        i = i + 1;
    }
    assert(es@.subrange(0, i as int) =~= es@);
}

/// The Markdown report of `comparison`. The four totals of list lengths must
/// fit in a `usize`.
pub fn comparison_report(comparison: &ComparisonResults) -> (r: String)
    requires
        total_len(comparison.structs@, 0) <= usize::MAX,
        total_len(comparison.structs@, 1) <= usize::MAX,
        total_len(comparison.structs@, 2) <= usize::MAX,
        total_len(comparison.structs@, 3) <= usize::MAX,
    ensures
        r@ == report_text(*comparison),
{
    let cs = &comparison.structs;
    let es = &comparison.enums;
    let mut out = String::new();
    out.append("# Method Comparison Report: rustxlsxwriter to wasm-xlsxwriter Migration\n\n");
    let ghost head = out@;
    out.append("## Summary\n");
    push_count_line(
        &mut out,
        "  - ✅ Fully Migrated Structs: ",
        count_with_status(cs, MigrationStatus::FullyMigrated),
    );
    push_count_line(
        &mut out,
        "  - ⚠️ Partially Migrated Structs: ",
        count_with_status(cs, MigrationStatus::PartiallyMigrated),
    );
    push_count_line(
        &mut out,
        "  - ❌ Not Migrated Structs: ",
        count_with_status(cs, MigrationStatus::NotMigrated),
    );
    push_count_line(&mut out, "  - ✅ Migrated Enums: ", count_enums_migrated(es, true));
    push_count_line(&mut out, "  - ❌ Not Migrated Enums: ", count_enums_migrated(es, false));
    push_count_line(&mut out, "  - ✅ Total Migrated Methods: ", sum_lengths(cs, 0));
    push_count_line(&mut out, "  - ❌ Total Not Migrated Methods: ", sum_lengths(cs, 1));
    push_count_line(&mut out, "  - ✅ Total Migrated Functions: ", sum_lengths(cs, 2));
    push_count_line(&mut out, "  - ❌ Total Not Migrated Functions: ", sum_lengths(cs, 3));
    assert(out@ =~= head + summary_text(*comparison));
    out.append("## Details of Structs\n");
    push_fully_migrated(&mut out, cs);
    push_details(&mut out, cs, MigrationStatus::PartiallyMigrated);
    push_details(&mut out, cs, MigrationStatus::NotMigrated);
    out.append("\n## ✅ Migrated Enums\n");
    push_enum_lines(&mut out, es, true);
    out.append("\n## ❌ Not Migrated Enums\n");
    push_enum_lines(&mut out, es, false);
    assert(out@ =~= report_text(*comparison));
    out
}

} // verus!
