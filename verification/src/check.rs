//! Config check module.
//!
//! Checks survey tool configuration text (YAML) for correctness according to
//! a schema that ships with the library. A configuration is an ordered
//! sequence of documents: one survey header followed by at least one page.

use vstd::prelude::*;
use crate::models::result::CheckResult;
use crate::models::result::Violation;
use crate::models::result::document_messages;
use crate::models::result::report_consistent;
use crate::text::dec_rep;
use crate::text::ends_with_spec;
use crate::text::str_ends_with;
use crate::text::usize_to_string;

verus! {

/// The schema every document of a survey configuration must satisfy.
pub const SCHEMA: &'static str = "{\"$schema\":\"https://json-schema.org/draft/2020-12/schema\",\"type\":\"object\",\"properties\":{\"title\":{\"type\":\"string\"},\"description\":{\"type\":\"string\"},\"image_path\":{\"type\":\"string\"}}}";

/// Why a check run had to stop before a report could be produced.
#[derive(Debug)]
pub enum ConfigError {
    /// The input text could not be split into well-formed documents; holds
    /// the parser's description of the fault.
    Parse(String),
    /// The embedded schema itself failed to parse or compile: a programming
    /// error in the library, not a fault of the checked input.
    SchemaLoad(String),
}

#[verifier::external_type_specification]
#[verifier::external_body]
pub struct ExValue(serde_json::Value);

/// A compiled schema, ready to evaluate documents against. It holds
/// jsonschema's compiled validator, which the proofs treat as opaque.
#[verifier::external_body]
pub struct SchemaValidator {
    inner: jsonschema::Validator,
}

/// The documents the YAML text splits into, in input order, or nothing when
/// the text is malformed. Splitting depends on the text alone.
pub uninterp spec fn yaml_documents(text: Seq<char>) -> Option<Seq<serde_json::Value>>;

/// The value JSON text parses into, or nothing when the text is not
/// well-formed JSON. Parsing depends on the text alone.
pub uninterp spec fn json_value_of(text: Seq<char>) -> Option<serde_json::Value>;

/// The validator a schema value compiles into, or nothing when the value is
/// not a valid schema. Compilation depends on the value alone.
pub uninterp spec fn compiled_validator(schema: serde_json::Value) -> Option<SchemaValidator>;

/// The violations evaluating one document against a compiled schema yields,
/// in the evaluator's order; empty exactly when the document conforms.
/// Evaluation depends on the validator and the document alone.
pub uninterp spec fn violations_of(validator: SchemaValidator, instance: serde_json::Value) -> Seq<
    Violation,
>;

/// Relies on serde_saphyr::from_multiple: it splits multi-document YAML text
/// into a sequence of generic values, in input order (empty documents are
/// skipped), and fails exactly when some document is malformed. Splitting
/// depends on the text alone.
#[verifier::external_body]
fn parse_documents(text: &str) -> (r: Result<Vec<serde_json::Value>, String>)
    ensures
        match r {
            Ok(docs) => yaml_documents(text@) == Some(docs@),
            Err(_) => yaml_documents(text@) is None,
        },
{
    serde_saphyr::from_multiple::<serde_json::Value>(text).map_err(|e| e.to_string())
}

/// Relies on serde_json::from_str: it parses JSON text into a generic value
/// and fails exactly when the text is not well-formed JSON. Parsing depends
/// on the text alone.
#[verifier::external_body]
fn parse_json(text: &str) -> (r: Result<serde_json::Value, String>)
    ensures
        match r {
            Ok(v) => json_value_of(text@) == Some(v),
            Err(_) => json_value_of(text@) is None,
        },
{
    serde_json::from_str::<serde_json::Value>(text).map_err(|e| e.to_string())
}

/// Relies on jsonschema::validator_for: it compiles a schema value into a
/// validator, a function of the value alone, and fails exactly when the
/// value is not a valid schema.
#[verifier::external_body]
fn build_validator(schema: &serde_json::Value) -> (r: Result<SchemaValidator, String>)
    ensures
        match r {
            Ok(v) => compiled_validator(*schema) == Some(v),
            Err(_) => compiled_validator(*schema) is None,
        },
{
    match jsonschema::validator_for(schema) {
        Ok(v) => Ok(SchemaValidator { inner: v }),
        Err(e) => Err(e.to_string()),
    }
}

/// Relies on jsonschema's Validator::evaluate and Evaluation::iter_errors:
/// they evaluate one document against the compiled schema and yield every
/// violation found, not only the first, each with its message and its two
/// slash-delimited location pointers, in the evaluator's order — a function
/// of the validator and the document alone.
#[verifier::external_body]
fn evaluate(validator: &SchemaValidator, instance: &serde_json::Value) -> (vs: Vec<
    Violation,
>)
    ensures
        vs@ == violations_of(*validator, *instance),
{
    let evaluation = validator.inner.evaluate(instance);
    evaluation.iter_errors().map(
        |e| Violation {
            message: e.error.to_string(),
            instance_location: e.instance_location.to_string(),
            schema_location: e.schema_location.to_string(),
        },
    ).collect()
}

/// The validator the given schema text parses and compiles into, or nothing
/// when the text is not well-formed JSON or not a valid schema.
pub open spec fn compiled_of_text(text: Seq<char>) -> Option<SchemaValidator> {
    match json_value_of(text) {
        Option::Some(v) => compiled_validator(v),
        Option::None => Option::None,
    }
}

/// Whether the schema that ships with the library parses and compiles.
pub open spec fn embedded_schema_ok() -> bool {
    compiled_of_text(SCHEMA@) is Some
}

/// The compiled form of the schema that ships with the library.
pub open spec fn embedded_validator() -> SchemaValidator {
    compiled_of_text(SCHEMA@)->0
}

/// Compile schema text into a validator. It succeeds exactly when the text
/// is well-formed JSON holding a valid schema, and then returns its compiled
/// form; anything else is a schema-load failure.
pub fn compile_schema(schema_text: &str) -> (r: Result<SchemaValidator, ConfigError>)
    ensures
        match r {
            Ok(v) => compiled_of_text(schema_text@) == Some(v),
            Err(e) => e is SchemaLoad && compiled_of_text(schema_text@) is None,
        },
{
    let schema_value = match parse_json(schema_text) {
        Ok(v) => v,
        Err(m) => {
            return Err(ConfigError::SchemaLoad(m));
        },
    };
    match build_validator(&schema_value) {
        Ok(v) => Ok(v),
        Err(m) => Err(ConfigError::SchemaLoad(m)),
    }
}

/// Compile the schema that ships with the library. It succeeds exactly when
/// that schema parses and compiles; failure means the shipped schema itself
/// is broken, not that the checked input is bad.
pub fn load_schema() -> (r: Result<SchemaValidator, ConfigError>)
    ensures
        match r {
            Ok(v) => embedded_schema_ok() && v == embedded_validator(),
            Err(e) => e is SchemaLoad && !embedded_schema_ok(),
        },
{
    compile_schema(SCHEMA)
}

/// Evaluate one document against the compiled schema and record every
/// violation found, formatted with the document's 1-based number.
pub fn check_document(
    instance: &serde_json::Value,
    validator: &SchemaValidator,
    result: &mut CheckResult,
    document: usize,
) -> (r: Result<(), ConfigError>)
    requires
        document < usize::MAX,
    ensures
        r is Ok,
        final(result).error_list.deep_view() == old(result).error_list.deep_view()
            + document_messages(document as nat, violations_of(*validator, *instance)),
        final(result).all_ok == (old(result).all_ok && violations_of(
            *validator,
            *instance,
        ).len() == 0),
        final(result).success_list == old(result).success_list,
        final(result).output == old(result).output,
{
    let vs = evaluate(validator, instance);
    result.record_document_violations(document, &vs);
    Ok(())
}

/// Whether the name carries one of the accepted YAML extensions.
pub open spec fn has_yaml_extension(name: Seq<char>) -> bool {
    ends_with_spec(name, ".yaml"@) || ends_with_spec(name, ".yml"@)
}

/// The failure message for a source name without a YAML extension.
pub open spec fn extension_failure_message() -> Seq<char> {
    "File has no Yaml extension (.yaml or .yml)"@
}

/// The failure message for an input with fewer documents than the minimum.
pub open spec fn count_failure_message(found: nat) -> Seq<char> {
    "Found only "@ + dec_rep(found)
        + " documents in yaml. At least two (survey header and one page) are needed"@
}

/// The report produced when the source name fails the extension check:
/// exactly one structural failure and nothing else.
pub open spec fn extension_failure_report(r: CheckResult) -> bool {
    &&& !r.all_ok
    &&& r.error_list@.len() == 1
    &&& r.error_list@[0]@ == extension_failure_message()
    &&& r.success_list@.len() == 0
    &&& r.output is None
}

/// The report produced when the input held fewer documents than the minimum:
/// exactly one structural failure naming the count found.
pub open spec fn count_failure_report(r: CheckResult, found: nat) -> bool {
    &&& !r.all_ok
    &&& r.error_list@.len() == 1
    &&& r.error_list@[0]@ == count_failure_message(found)
    &&& r.success_list@.len() == 0
    &&& r.output is None
}

/// The formatted violations of documents 0 up to the sequence's length, in
/// document order, each document's violations in evaluator order.
pub open spec fn all_messages(vss: Seq<Seq<Violation>>) -> Seq<Seq<char>>
    decreases vss.len(),
{
    if vss.len() == 0 {
        Seq::empty()
    } else {
        all_messages(vss.drop_last()) + document_messages((vss.len() - 1) as nat, vss.last())
    }
}

/// Each document's violations against the embedded schema, by document.
pub open spec fn doc_violations(docs: Seq<serde_json::Value>) -> Seq<Seq<Violation>> {
    Seq::new(docs.len(), |k: int| violations_of(embedded_validator(), docs[k]))
}

/// The report produced when every document was evaluated against the
/// embedded schema: the error list is exactly every document's formatted
/// violations, in document order, and `all_ok` holds exactly when every
/// document came through clean.
pub open spec fn validated_report(r: CheckResult, docs: Seq<serde_json::Value>) -> bool {
    &&& r.error_list.deep_view() == all_messages(doc_violations(docs))
    &&& (r.all_ok <==> (forall|k: int|
        0 <= k < docs.len() ==> (#[trigger] violations_of(embedded_validator(), docs[k])).len()
            == 0))
    &&& r.success_list@.len() == 0
    &&& r.output is None
}

/// What a finished configuration check returns for the given text and name.
///
/// A name without a YAML extension yields a report with exactly the one
/// extension failure. Otherwise malformed text is a parse error; fewer than
/// two documents yield a report with exactly the one count failure; a broken
/// embedded schema is a schema-load error; else the check succeeds and every
/// document was evaluated in order with every violation reported. Any report
/// produced is consistent: `all_ok` exactly when no failure.
pub open spec fn check_post(
    source_text: Seq<char>,
    source_name: Seq<char>,
    r: Result<CheckResult, ConfigError>,
) -> bool {
    &&& (!has_yaml_extension(source_name) ==> (r matches Ok(rep) && extension_failure_report(
        rep,
    )))
    &&& (has_yaml_extension(source_name) ==> match yaml_documents(source_text) {
        Option::None => r matches Err(e) && e is Parse,
        Option::Some(docs) => {
            &&& (docs.len() < 2 ==> (r matches Ok(rep) && count_failure_report(rep, docs.len())))
            &&& (docs.len() >= 2 && !embedded_schema_ok() ==> (r matches Err(e)
                && e is SchemaLoad))
            &&& (docs.len() >= 2 && embedded_schema_ok() ==> (r matches Ok(rep)
                && validated_report(rep, docs)))
        },
    })
    &&& (r matches Ok(rep) ==> report_consistent(rep))
}

/// Check configuration text for correctness.
///
/// The name must carry a YAML extension; the text must split into at least
/// two documents (the survey header and one page); every document is then
/// evaluated against the embedded schema and every violation is reported,
/// never only the first. Malformed text is an error, not a report.
pub fn check(source_text: &str, source_name: &str) -> (r: Result<CheckResult, ConfigError>)
    ensures
        check_post(source_text@, source_name@, r),
{
    if !(str_ends_with(source_name, ".yaml") || str_ends_with(source_name, ".yml")) {
        let mut rep = CheckResult::not_ok();
        rep.record_structural_failure(
            String::from_str("File has no Yaml extension (.yaml or .yml)"),
        );
        return Ok(rep);
    }
    let docs = match parse_documents(source_text) {
        Ok(docs) => docs,
        Err(m) => {
            return Err(ConfigError::Parse(m));
        },
    };
    if docs.len() < 2 {
        let mut rep = CheckResult::not_ok();
        let mut msg = String::from_str("Found only ");
        let num = usize_to_string(docs.len());
        msg.append(num.as_str());
        msg.append(" documents in yaml. At least two (survey header and one page) are needed");
        proof {
            assert(msg@ =~= count_failure_message(docs@.len() as nat));
        }
        rep.record_structural_failure(msg);
        return Ok(rep);
    }
    let validator = match load_schema() {
        Ok(v) => v,
        Err(e) => {
            return Err(e);
        },
    };
    let mut rep = CheckResult::all_ok();
    let ghost mut vss: Seq<Seq<Violation>> = Seq::empty();
    let mut i: usize = 0;
    proof {
        assert(rep.error_list.deep_view() =~= all_messages(vss));
    }
    while i < docs.len()
        invariant
            i <= docs@.len(),
            vss.len() == i as nat,
            validator == embedded_validator(),
            forall|k: int| 0 <= k < i ==> vss[k] == violations_of(embedded_validator(), docs@[k]),
            rep.error_list.deep_view() == all_messages(vss),
            rep.all_ok <==> (forall|k: int| 0 <= k < vss.len() ==> vss[k].len() == 0),
            rep.all_ok <==> rep.error_list@.len() == 0,
            rep.success_list@.len() == 0,
            rep.output is None,
        decreases docs@.len() - i,
    {
        let vs = evaluate(&validator, &docs[i]);
        let ghost prev_len = rep.error_list@.len();
        rep.record_document_violations(i, &vs);
        proof {
            let prev_vss = vss;
            vss = vss.push(vs@);
            assert(vss.drop_last() =~= prev_vss);
            assert(vss.last() == vs@);
            assert(all_messages(vss) == all_messages(prev_vss) + document_messages(
                i as nat,
                vs@,
            ));
            assert(rep.error_list@.len() == rep.error_list.deep_view().len());
            assert(rep.error_list@.len() == prev_len + vs@.len());
            assert(rep.all_ok <==> (forall|k: int| 0 <= k < vss.len() ==> vss[k].len() == 0)) by {
                if rep.all_ok {
                    assert(forall|k: int| 0 <= k < prev_vss.len() ==> prev_vss[k].len() == 0);
                    assert(forall|k: int|
                        0 <= k < vss.len() ==> vss[k].len() == 0) by {
                        assert(forall|k: int|
                            0 <= k < prev_vss.len() ==> vss[k] == prev_vss[k]);
                    }
                }
            }
        }
        i += 1;
    }
    proof {
        assert(vss =~= doc_violations(docs@));
        assert(rep.error_list.deep_view() == all_messages(doc_violations(docs@)));
        assert(rep.all_ok <==> (forall|k: int|
            0 <= k < docs@.len() ==> (#[trigger] violations_of(embedded_validator(), docs@[k])).len()
                == 0)) by {
            if rep.all_ok {
                assert forall|k: int|
                    0 <= k < docs@.len() implies (#[trigger] violations_of(
                    embedded_validator(),
                    docs@[k],
                )).len() == 0 by {
                    assert(vss[k].len() == 0);
                }
            } else {
                assert(!(forall|k: int| 0 <= k < vss.len() ==> vss[k].len() == 0));
                let k0 = choose|k: int| 0 <= k < vss.len() && vss[k].len() != 0;
                assert(violations_of(embedded_validator(), docs@[k0]).len() != 0);
            }
        }
        assert(validated_report(rep, docs@));
    }
    Ok(rep)
}

} // verus!
