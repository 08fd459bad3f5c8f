//! The compute side of subdomain enumeration: forming candidate domains
//! from wordlist entries and laying out the findings as a markdown note.
//! The wordlist read, the name lookups and the note write happen outside
//! the library; every string they exchange is built and specified here.

use vstd::prelude::*;
use vstd::string::StrSliceExecFns;
use vstd::string::StringExecFns;

use crate::strkit::views_of;

verus! {

/// The name to try for one wordlist entry: `<sub>.<domain>`.
pub fn candidate_domain(sub: &str, domain: &str) -> (r: String)
    ensures
        r@ == sub@ + seq!['.'] + domain@,
{
    let mut s = String::from_str(sub);
    s.append(".");
    s.append(domain);
    proof {
        reveal_strlit(".");
        assert(s@ =~= sub@ + seq!['.'] + domain@);
    }
    s
}

/// The addresses found for one name, each followed by a comma.
pub open spec fn ips_joined(ips: Seq<Seq<char>>, upto: int) -> Seq<char>
    decreases upto,
{
    if upto <= 0 {
        Seq::<char>::empty()
    } else {
        ips_joined(ips, upto - 1) + ips[upto - 1] + seq![',']
    }
}

/// One findings row: the resolved name, a separator, its addresses.
pub fn result_row(domain_name: &str, ips: &Vec<String>) -> (r: String)
    ensures
        r@ == domain_name@ + " | "@ + ips_joined(views_of(ips@), ips@.len() as int),
{
    let mut s = String::from_str(domain_name);
    s.append(" | ");
    let mut i: usize = 0;
    while i < ips.len()
        invariant
            i <= ips@.len(),
            s@ == domain_name@ + " | "@ + ips_joined(views_of(ips@), i as int),
        decreases ips@.len() - i,
    {
        s.append(ips[i].as_str());
        s.append(",");
        proof {
            reveal_strlit(",");
            assert(views_of(ips@)[i as int] == ips@[i as int]@);
            assert(s@ =~= domain_name@ + " | "@ + ips_joined(views_of(ips@), i + 1));
        }
        i += 1;
    }
    s
}

/// The findings rows of the markdown table.
pub open spec fn note_rows(results: Seq<Seq<char>>, upto: int) -> Seq<char>
    decreases upto,
{
    if upto <= 0 {
        Seq::<char>::empty()
    } else {
        note_rows(results, upto - 1) + "| "@ + results[upto - 1] + " |\n"@
    }
}

/// The markdown appended to the enumeration notes: a heading for the
/// target and a table of every name that resolved.
pub open spec fn enumeration_note_spec(target: Seq<char>, results: Seq<Seq<char>>) -> Seq<char> {
    "\n\n# Subdomain Bruteforce\n"@ + "## "@ + target + "\n| domain name | IP Addresses |\n"@
        + "| ----------- | ------------ |\n"@ + note_rows(results, results.len() as int)
}

/// Builds the enumeration note for a finished run.
pub fn enumeration_note(target: &str, results: &Vec<String>) -> (r: String)
    ensures
        r@ == enumeration_note_spec(target@, views_of(results@)),
{
    let mut s = String::from_str("\n\n# Subdomain Bruteforce\n");
    s.append("## ");
    s.append(target);
    s.append("\n| domain name | IP Addresses |\n");
    s.append("| ----------- | ------------ |\n");
    let ghost head = "\n\n# Subdomain Bruteforce\n"@ + "## "@ + target@
        + "\n| domain name | IP Addresses |\n"@ + "| ----------- | ------------ |\n"@;
    proof {
        assert(s@ =~= head);
    }
    let mut i: usize = 0;
    while i < results.len()
        invariant
            i <= results@.len(),
            head == "\n\n# Subdomain Bruteforce\n"@ + "## "@ + target@
                + "\n| domain name | IP Addresses |\n"@ + "| ----------- | ------------ |\n"@,
            s@ == head + note_rows(views_of(results@), i as int),
        decreases results@.len() - i,
    {
        s.append("| ");
        s.append(results[i].as_str());
        s.append(" |\n");
        proof {
            assert(views_of(results@)[i as int] == results@[i as int]@);
            assert(s@ =~= head + note_rows(views_of(results@), i + 1));
        }
        i += 1;
    }
    s
}

} // verus!
