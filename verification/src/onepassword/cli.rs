//! What the answers of the command-line tool mean.

use crate::onepassword::types::OpField;
use crate::onepassword::types::OpFieldView;
use crate::onepassword::types::OpItemDetail;
use crate::onepassword::types::OpItemDetailView;
use crate::onepassword::types::OpStatus;
use crate::onepassword::types::field_views;
use crate::text::chars_of;
use crate::text::lower_chars;
use crate::text::lowercase;
use crate::text::matches_at;
use crate::text::opt_text;
use crate::text::str_eq;
use crate::text::string_of;
use crate::text::trim_chars;
use crate::text::trimmed;
use vstd::prelude::*;

verus! {

/// How a run of the tool ended: whether it reported success, what it wrote
/// to its output (or why that is no text), and what it wrote as complaint.
#[derive(Debug)]
pub struct OpOutput {
    pub success: bool,
    pub stdout: Result<String, String>,
    pub stderr: String,
}

/// The text of a result.
pub open spec fn text_result(r: Result<String, String>) -> Result<Seq<char>, Seq<char>> {
    match r {
        Ok(t) => Ok(t@),
        Err(e) => Err(e@),
    }
}

/// The status to report: signing in is looked at only when vaults are
/// listed, so no account is named here.
pub fn check_op_status(cli_installed: bool, version_output: Option<String>) -> (r: OpStatus)
    ensures
        r.cli_installed == cli_installed,
        !r.signed_in,
        r.accounts@.len() == 0,
        opt_text(r.cli_version) == if cli_installed {
            match version_output {
                Some(v) => Some(trimmed(v@)),
                None => None,
            }
        } else {
            None
        },
{
    let cli_version = if cli_installed {
        match version_output {
            Some(v) => Some(string_of(&trim_chars(&chars_of(v.as_str())))),
            None => None,
        }
    } else {
        None
    };
    OpStatus { cli_installed, cli_version, signed_in: false, accounts: Vec::new() }
}

/// The reference of a field: `op://vault/item/field`.
pub open spec fn reference_of(vault: Seq<char>, item: Seq<char>, field: Seq<char>) -> Seq<char> {
    "op://"@ + vault + "/"@ + item + "/"@ + field
}

/// The reference of a field.
pub fn secret_reference(vault: &str, item: &str, field: &str) -> (r: String)
    ensures
        r@ == reference_of(vault@, item@, field@),
{
    let mut reference = String::from_str("op://");
    reference.append(vault);
    reference.append("/");
    reference.append(item);
    reference.append("/");
    reference.append(field);
    reference
}

/// What reading a secret returns on the tool's output: the output without
/// the white space at its ends, or what went wrong.
pub open spec fn secret_of(output: OpOutput) -> Result<Seq<char>, Seq<char>> {
    if !output.success {
        Err("op read failed: "@ + output.stderr@)
    } else {
        match output.stdout {
            Ok(text) => Ok(trimmed(text@)),
            Err(reason) => Err("Invalid UTF-8 output: "@ + reason@),
        }
    }
}

/// The secret that a read of a reference produced.
pub fn read_secret(output: &OpOutput) -> (r: Result<String, String>)
    ensures
        text_result(r) == secret_of(*output),
{
    if !output.success {
        let mut message = String::from_str("op read failed: ");
        message.append(output.stderr.as_str());
        return Err(message);
    }
    match &output.stdout {
        Ok(text) => Ok(string_of(&trim_chars(&chars_of(text.as_str())))),
        Err(reason) => {
            let mut message = String::from_str("Invalid UTF-8 output: ");
            message.append(reason.as_str());
            Err(message)
        },
    }
}

/// Whether a field goes by the wanted name, whatever the case, and holds
/// something.
pub open spec fn field_named(f: OpFieldView, field: Seq<char>) -> bool {
    (lowercase(f.label) == lowercase(field) || lowercase(f.id) == lowercase(field)) && f.value.len()
        > 0
}

/// Whether a field holds the plain notes of a secure note.
pub open spec fn field_is_notes(f: OpFieldView) -> bool {
    (f.id == "notesPlain"@ || f.label == "notesPlain"@) && f.value.len() > 0
}

/// The value of the first field that `wanted` holds of.
pub open spec fn first_value(fields: Seq<OpFieldView>, wanted: spec_fn(OpFieldView) -> bool)
    -> Option<Seq<char>>
    decreases fields.len(),
{
    if fields.len() == 0 {
        None
    } else if wanted(fields[0]) {
        Some(fields[0].value)
    } else {
        first_value(fields.drop_first(), wanted)
    }
}

/// The value found in an item: that of the first field of the name;
/// failing that, for the names `mnemonic` and `notes`, the plain notes.
pub open spec fn looked_up(detail: OpItemDetailView, field: Seq<char>) -> Option<Seq<char>> {
    match first_value(detail.fields, |f: OpFieldView| field_named(f, field)) {
        Some(value) => Some(value),
        None => if field == "mnemonic"@ || field == "notes"@ {
            first_value(detail.fields, |f: OpFieldView| field_is_notes(f))
        } else {
            None
        },
    }
}

/// What is said where nothing was found.
pub open spec fn not_found(vault: Seq<char>, item: Seq<char>, field: Seq<char>) -> Seq<char> {
    "Field '"@ + field + "' not found in item '"@ + item + "' vault '"@ + vault + "'"@
}

/// Whether two texts are the same characters.
fn same_chars(a: &Vec<char>, b: &Vec<char>) -> (r: bool)
    ensures
        r == (a@ == b@),
{
    if a.len() != b.len() {
        return false;
    }
    let r = matches_at(a, 0, b);
    assert(a@.subrange(0, a.len() as int) == a@);
    r
}

/// The value of the first field of the name `field`.
pub fn find_named_field(fields: &Vec<OpField>, field: &str) -> (r: Option<String>)
    ensures
        opt_text(r) == first_value(field_views(fields@), |f: OpFieldView| field_named(f, field@)),
{
    let wanted = lower_chars(&chars_of(field));
    let ghost views = field_views(fields@);
    let ghost pred = |f: OpFieldView| field_named(f, field@);
    let mut i: usize = 0;
    assert(views.skip(0) == views);
    while i < fields.len()
        invariant
            i <= fields@.len(),
            views == field_views(fields@),
            wanted@ == lowercase(field@),
            pred == |f: OpFieldView| field_named(f, field@),
            first_value(views, pred) == first_value(views.skip(i as int), pred),
        decreases fields@.len() - i,
    {
        let f = &fields[i];
        assert(views.skip(i as int)[0] == f@);
        let label = lower_chars(&chars_of(f.label.as_str()));
        let id = lower_chars(&chars_of(f.id.as_str()));
        let value = chars_of(f.value.as_str());
        if (same_chars(&label, &wanted) || same_chars(&id, &wanted)) && value.len() > 0 {
            return Some(f.value.clone());
        }
        assert(views.skip(i as int).drop_first() == views.skip(i + 1));
        i += 1;
    }
    None
}

/// The plain notes of an item.
pub fn find_notes(fields: &Vec<OpField>) -> (r: Option<String>)
    ensures
        opt_text(r) == first_value(field_views(fields@), |f: OpFieldView| field_is_notes(f)),
{
    let ghost views = field_views(fields@);
    let ghost pred = |f: OpFieldView| field_is_notes(f);
    let mut i: usize = 0;
    assert(views.skip(0) == views);
    while i < fields.len()
        invariant
            i <= fields@.len(),
            views == field_views(fields@),
            pred == |f: OpFieldView| field_is_notes(f),
            first_value(views, pred) == first_value(views.skip(i as int), pred),
        decreases fields@.len() - i,
    {
        let f = &fields[i];
        assert(views.skip(i as int)[0] == f@);
        let value = chars_of(f.value.as_str());
        if (str_eq(f.id.as_str(), "notesPlain") || str_eq(f.label.as_str(), "notesPlain"))
            && value.len() > 0 {
            return Some(f.value.clone());
        }
        assert(views.skip(i as int).drop_first() == views.skip(i + 1));
        i += 1;
    }
    None
}

/// Whether a read of the field's reference settles the matter: it
/// succeeded and brought something.
pub fn usable_secret(secret: &Result<String, String>) -> (r: Option<String>)
    ensures
        opt_text(r) == match *secret {
            Ok(value) => if value@.len() > 0 {
                Some(value@)
            } else {
                None
            },
            Err(_) => None,
        },
{
    match secret {
        Ok(value) => {
            if chars_of(value.as_str()).len() > 0 {
                Some(value.clone())
            } else {
                None
            }
        },
        Err(_) => None,
    }
}

/// The value of a field of an item, looked up in the item's detail: the
/// step that follows where reading the field's reference brought nothing.
pub fn read_item_field(vault: &str, item: &str, field: &str, detail: &OpItemDetail) -> (r: Result<
    String,
    String,
>)
    ensures
        text_result(r) == match looked_up(detail@, field@) {
            Some(value) => Ok::<Seq<char>, Seq<char>>(value),
            None => Err::<Seq<char>, Seq<char>>(not_found(vault@, item@, field@)),
        },
{
    match find_named_field(&detail.fields, field) {
        Some(value) => {
            return Ok(value);
        },
        None => {},
    }
    if str_eq(field, "mnemonic") || str_eq(field, "notes") {
        match find_notes(&detail.fields) {
            Some(value) => {
                return Ok(value);
            },
            None => {},
        }
    }
    let mut message = String::from_str("Field '");
    message.append(field);
    message.append("' not found in item '");
    message.append(item);
    message.append("' vault '");
    message.append(vault);
    message.append("'");
    Err(message)
}


/// What to do next to read a field.
#[derive(Debug)]
pub enum FieldStep {
    /// Read the secret at this reference.
    ReadSecret(String),
    /// Fetch the detail of the item.
    GetDetail,
    /// The reading is over: this is its result.
    Finish(Result<String, String>),
}

/// What a `FieldStep` holds, as mathematical values.
pub enum FieldStepView {
    ReadSecret(Seq<char>),
    GetDetail,
    Finish(Result<Seq<char>, Seq<char>>),
}

impl View for FieldStep {
    type V = FieldStepView;

    open spec fn view(&self) -> FieldStepView {
        match self {
            FieldStep::ReadSecret(reference) => FieldStepView::ReadSecret(reference@),
            FieldStep::GetDetail => FieldStepView::GetDetail,
            FieldStep::Finish(r) => FieldStepView::Finish(text_result(*r)),
        }
    }
}

/// What reading a field does next, given what has been read so far: first
/// the field's reference is read; a secret with content ends the reading;
/// else the item's detail is fetched, whose failure ends the reading with
/// that failure, and in which the field is looked up.
pub open spec fn next_field_step(
    vault: Seq<char>,
    item: Seq<char>,
    field: Seq<char>,
    secret: Option<Result<String, String>>,
    detail: Option<Result<OpItemDetail, String>>,
) -> FieldStepView {
    match secret {
        None => FieldStepView::ReadSecret(reference_of(vault, item, field)),
        Some(read) => {
            if read is Ok && read->Ok_0@.len() > 0 {
                FieldStepView::Finish(Ok(read->Ok_0@))
            } else {
                match detail {
                    None => FieldStepView::GetDetail,
                    Some(Err(failure)) => FieldStepView::Finish(Err(failure@)),
                    Some(Ok(found)) => FieldStepView::Finish(
                        match looked_up(found@, field) {
                            Some(value) => Ok(value),
                            None => Err(not_found(vault, item, field)),
                        },
                    ),
                }
            }
        },
    }
}

/// What to do next to read `field` of `item` in `vault`. `secret` is what
/// the read of the reference brought and `detail` what fetching the detail
/// brought, each `None` as long as it has not been asked for.
pub fn field_step(
    vault: &str,
    item: &str,
    field: &str,
    secret: &Option<Result<String, String>>,
    detail: &Option<Result<OpItemDetail, String>>,
) -> (r: FieldStep)
    ensures
        r@ == next_field_step(vault@, item@, field@, *secret, *detail),
{
    let read = match secret {
        None => {
            return FieldStep::ReadSecret(secret_reference(vault, item, field));
        },
        Some(read) => read,
    };
    match usable_secret(read) {
        Some(value) => {
            return FieldStep::Finish(Ok(value));
        },
        None => {},
    }
    match detail {
        None => FieldStep::GetDetail,
        Some(Err(failure)) => FieldStep::Finish(Err(failure.clone())),
        Some(Ok(found)) => FieldStep::Finish(read_item_field(vault, item, field, found)),
    }
}

} // verus!
