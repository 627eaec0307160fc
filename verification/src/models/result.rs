//! Result type for check operations, and the violation record it aggregates.

use vstd::prelude::*;
use crate::text::dec_rep;
use crate::text::usize_to_string;

verus! {

/// One schema failure for one document: a human-readable message plus a
/// pointer into the document and a pointer into the schema, both in
/// slash-delimited form.
pub struct Violation {
    pub message: String,
    pub instance_location: String,
    pub schema_location: String,
}

/// Display form of one violation of the document with the given 0-based index;
/// the index is printed 1-based for human readability.
pub open spec fn violation_message(document: nat, v: Violation) -> Seq<char> {
    v.message@ + " (document "@ + dec_rep((document + 1) as nat) + ", loc "@
        + v.instance_location@ + " - schema "@ + v.schema_location@ + ")"@
}

/// The display strings of one document's violations, in evaluator order.
pub open spec fn document_messages(document: nat, vs: Seq<Violation>) -> Seq<Seq<char>> {
    vs.map_values(|v: Violation| violation_message(document, v))
}

/// Result for check operations.
#[derive(Debug, PartialEq)]
pub struct CheckResult {
    /// Simple flag to specify if the operation encountered any errors/problems.
    pub all_ok: bool,
    /// List of all successful checks.
    pub success_list: Vec<String>,
    /// List of all errors found.
    pub error_list: Vec<String>,
    /// Optional additional output.
    pub output: Option<String>,
}

/// `all_ok` agrees with the error list: it is set exactly when no error was
/// recorded.
pub open spec fn report_consistent(r: CheckResult) -> bool {
    r.all_ok <==> r.error_list@.len() == 0
}

impl CheckResult {
    /// Create an empty `CheckResult` with `all_ok` true.
    pub fn all_ok() -> (r: CheckResult)
        ensures
            r.all_ok == true,
            r.success_list@.len() == 0,
            r.error_list@.len() == 0,
            r.output is None,
    {
        CheckResult {
            all_ok: true,
            success_list: Vec::new(),
            error_list: Vec::new(),
            output: None,
        }
    }

    /// Create an empty `CheckResult` with `all_ok` false.
    pub fn not_ok() -> (r: CheckResult)
        ensures
            r.all_ok == false,
            r.success_list@.len() == 0,
            r.error_list@.len() == 0,
            r.output is None,
    {
        CheckResult {
            all_ok: false,
            success_list: Vec::new(),
            error_list: Vec::new(),
            output: None,
        }
    }

    /// Record one success message; the flag is untouched.
    pub fn record_success(&mut self, message: String)
        ensures
            final(self).all_ok == old(self).all_ok,
            final(self).success_list@ == old(self).success_list@.push(message),
            final(self).error_list == old(self).error_list,
            final(self).output == old(self).output,
    {
        self.success_list.push(message);
    }

    /// Record one failure that is not tied to a document, such as a wrong
    /// file extension or too few documents; it always clears `all_ok`.
    pub fn record_structural_failure(&mut self, message: String)
        ensures
            final(self).all_ok == false,
            final(self).error_list@ == old(self).error_list@.push(message),
            final(self).success_list == old(self).success_list,
            final(self).output == old(self).output,
    {
        self.all_ok = false;
        self.error_list.push(message);
    }

    /// Format and append every violation of one document, in evaluator order;
    /// any violation clears `all_ok`. The index is 0-based and rendered
    /// 1-based inside the messages.
    pub fn record_document_violations(&mut self, document_index: usize, violations: &Vec<Violation>)
        requires
            document_index < usize::MAX,
        ensures
            final(self).error_list.deep_view() == old(self).error_list.deep_view()
                + document_messages(document_index as nat, violations@),
            final(self).all_ok == (old(self).all_ok && violations@.len() == 0),
            final(self).success_list == old(self).success_list,
            final(self).output == old(self).output,
    {
        if violations.len() > 0 {
            self.all_ok = false;
        }
        let mut i: usize = 0;
        while i < violations.len()
            invariant
                i <= violations@.len(),
                document_index < usize::MAX,
                self.error_list.deep_view() =~= old(self).error_list.deep_view()
                    + document_messages(
                    document_index as nat,
                    violations@.subrange(0, i as int),
                ),
                self.all_ok == (old(self).all_ok && violations@.len() == 0),
                self.success_list == old(self).success_list,
                self.output == old(self).output,
            decreases violations@.len() - i,
        {
            let msg = format_violation(document_index, &violations[i]);
            let ghost prev = self.error_list.deep_view();
            self.error_list.push(msg);
            proof {
                assert(self.error_list.deep_view() =~= prev.push(msg@));
                assert(violations@.subrange(0, i + 1) =~= violations@.subrange(
                    0,
                    i as int,
                ).push(violations@[i as int]));
                assert(document_messages(document_index as nat, violations@.subrange(0, i + 1))
                    =~= document_messages(
                    document_index as nat,
                    violations@.subrange(0, i as int),
                ).push(violation_message(document_index as nat, violations@[i as int])));
                assert(self.error_list.deep_view() =~= old(self).error_list.deep_view()
                    + document_messages(
                    document_index as nat,
                    violations@.subrange(0, i + 1),
                ));
            }
            i += 1;
        }
        proof {
            assert(violations@.subrange(0, violations@.len() as int) =~= violations@);
            assert(self.error_list.deep_view() =~= old(self).error_list.deep_view()
                + document_messages(document_index as nat, violations@));
        }
    }
}

/// Format one violation into the single display string
/// `<message> (document <index + 1>, loc <instance> - schema <schema>)`.
pub fn format_violation(document_index: usize, v: &Violation) -> (s: String)
    requires
        document_index < usize::MAX,
    ensures
        s@ == violation_message(document_index as nat, *v),
{
    let mut s = v.message.clone();
    s.append(" (document ");
    let num = usize_to_string(document_index + 1);
    s.append(num.as_str());
    s.append(", loc ");
    s.append(v.instance_location.as_str());
    s.append(" - schema ");
    s.append(v.schema_location.as_str());
    s.append(")");
    proof {
        assert(s@ =~= violation_message(document_index as nat, *v));
    }
    s
}

} // verus!
