//! Rendering the failing cases as chat text.

use vstd::prelude::*;
use vstd::string::*;
use crate::report::TestCase;

verus! {

/// The first part of the message: a failure marker, the title in bold, and an
/// empty line.
pub open spec fn header_text(title: Seq<char>) -> Seq<char> {
    seq![':', 'x', ':', ' ', '*'] + title + seq!['*', '\n', '\n']
}

/// One list item naming a case.
pub open spec fn case_line(name: Seq<char>) -> Seq<char> {
    seq!['-', ' '] + name + seq!['\n']
}

/// One list item per case, in order.
pub open spec fn lines_text(cases: Seq<TestCase>) -> Seq<char>
    decreases cases.len(),
{
    if cases.len() == 0 {
        Seq::empty()
    } else {
        lines_text(cases.drop_last()) + case_line(cases.last().name@)
    }
}

/// The whole message for a list of failing cases.
pub open spec fn slack_text(title: Seq<char>, cases: Seq<TestCase>) -> Seq<char> {
    header_text(title) + lines_text(cases)
}

/// Whether `needle` occurs in `hay` as a contiguous run.
pub open spec fn contains_text(hay: Seq<char>, needle: Seq<char>) -> bool {
    exists|k: int|
        0 <= k && k + needle.len() <= hay.len() && #[trigger] hay.subrange(k, k + needle.len())
            == needle
}

/// Appends the list item for `case` to `message`.
pub fn append_case_info(message: &mut String, case: &TestCase)
    ensures
        final(message)@ == old(message)@ + case_line(case.name@),
{
    message.append("- ");
    message.append(case.name.as_str());
    message.append("\n");
    proof {
        reveal_strlit("- ");
        reveal_strlit("\n");
        assert(final(message)@ =~= old(message)@ + case_line(case.name@));
    }
}

/// Renders the title and one list item per failing case.
pub fn format_slack_message(failed_cases: &Vec<TestCase>, title: &str) -> (r: String)
    ensures
        r@ == slack_text(title@, failed_cases@),
{
    let mut message = String::from_str(":x: *");
    message.append(title);
    message.append("*\n\n");
    proof {
        reveal_strlit(":x: *");
        reveal_strlit("*\n\n");
        assert(message@ =~= header_text(title@));
    }
    let mut i: usize = 0;
    while i < failed_cases.len()
        invariant
            i <= failed_cases@.len(),
            message@ == header_text(title@) + lines_text(failed_cases@.subrange(0, i as int)),
        decreases failed_cases@.len() - i,
    {
        append_case_info(&mut message, &failed_cases[i]);
        let ghost done = failed_cases@.subrange(0, i + 1);
        assert(done.drop_last() == failed_cases@.subrange(0, i as int));
        assert(message@ =~= header_text(title@) + lines_text(done));
        i = i + 1;
    }
    assert(failed_cases@.subrange(0, i as int) == failed_cases@);
    message
}

/// Every case's line stands in the list of lines.
proof fn lemma_line_in_lines(cases: Seq<TestCase>, i: int)
    requires
        0 <= i < cases.len(),
    ensures
        contains_text(lines_text(cases), case_line(cases[i].name@)),
    decreases cases.len(),
{
    let all = lines_text(cases);
    let line = case_line(cases[i].name@);
    if i == cases.len() - 1 {
        let k = lines_text(cases.drop_last()).len() as int;
        assert(all.subrange(k, k + line.len()) =~= line);
    } else {
        let front = cases.drop_last();
        lemma_line_in_lines(front, i);
        let inner = lines_text(front);
        let k = choose|k: int|
            0 <= k && k + line.len() <= inner.len() && #[trigger] inner.subrange(
                k,
                k + line.len(),
            ) == line;
        assert(all.subrange(k, k + line.len()) =~= inner.subrange(k, k + line.len()));
    }
}

/// Every failing case's name appears verbatim in the message.
pub proof fn lemma_names_appear(title: Seq<char>, cases: Seq<TestCase>, i: int)
    requires
        0 <= i < cases.len(),
    ensures
        contains_text(slack_text(title, cases), cases[i].name@),
{
    let name = cases[i].name@;
    let line = case_line(name);
    let lines = lines_text(cases);
    let all = slack_text(title, cases);
    lemma_line_in_lines(cases, i);
    let k = choose|k: int|
        0 <= k && k + line.len() <= lines.len() && #[trigger] lines.subrange(k, k + line.len())
            == line;
    let h = header_text(title).len() as int;
    let at = h + k + 2;
    assert(all.subrange(at, at + name.len()) =~= line.subrange(2, 2 + name.len() as int));
    assert(line.subrange(2, 2 + name.len() as int) =~= name);
}

} // verus!
