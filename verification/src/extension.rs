//! The extension dispatcher: routes each labeled message through the
//! reserved system namespace, the normalized-value rewrite, or a lookup
//! table, in that priority order, and passes everything else through.

use crate::labeler::LabeledMessage;
use crate::osc::Arg;
use crate::peer::PeerKind;
use crate::text::{contains_seq, contains_sub, second_last_token, spec_second_last_token,
    starts_with_seq, starts_with_sub};
use vstd::prelude::*;

pub mod name_lookup;
pub mod patchbay;
pub mod patterns;
pub mod system;
pub mod names;

verus! {

/// A failure while translating one message: a missing or malformed argument,
/// something not present where it was required, or a failed file operation.
/// The payload describes the failure.
#[derive(Debug)]
pub enum TranslationError {
    MissingArgument(String),
    NotFound(String),
    Io(String),
}

impl TranslationError {
    /// A short description of the error kind.
    pub fn describe(&self) -> (r: &'static str)
        ensures
            *self is MissingArgument ==> r@ == "missing argument"@,
            *self is NotFound ==> r@ == "not found"@,
            *self is Io ==> r@ == "file operation failed"@,
    {
        match self {
            TranslationError::MissingArgument(_) => "missing argument",
            TranslationError::NotFound(_) => "not found",
            TranslationError::Io(_) => "file operation failed",
        }
    }
}

/// The two lookup tables the dispatcher routes to, built once at startup and
/// passed by reference into every dispatch.
pub struct Tables {
    pub filter: name_lookup::LookupTable,
    pub fx: name_lookup::LookupTable,
}

impl Tables {
    /// Builds both tables with their fixed contents.
    pub fn new() -> (r: Tables)
        ensures
            names::spec_is_filter_table(r.filter),
            names::spec_is_fx_table(r.fx),
    {
        Tables { filter: names::filtertypes(), fx: names::fx_types() }
    }
}

/// Translates the first argument through the filter-type table.
pub fn translate_filter_type(labeled: LabeledMessage, tables: &Tables) -> (r: Result<
    LabeledMessage,
    TranslationError,
>)
    ensures
        name_lookup::lookup_post(labeled, tables.filter, r),
{
    name_lookup::lookup(labeled, &tables.filter)
}

/// Translates the first argument through the effect-type table.
pub fn translate_fx_type(labeled: LabeledMessage, tables: &Tables) -> (r: Result<
    LabeledMessage,
    TranslationError,
>)
    ensures
        name_lookup::lookup_post(labeled, tables.fx, r),
{
    name_lookup::lookup(labeled, &tables.fx)
}

/// What the pattern-routed table rules yield: an address matching the
/// filter-type pattern goes through the filter table; otherwise one matching
/// the effect-type pattern goes through the effect table; any other message
/// passes through unchanged.
pub open spec fn table_rules_post(
    labeled: LabeledMessage,
    tables: Tables,
    r: Result<LabeledMessage, TranslationError>,
) -> bool {
    if patterns::spec_filter_type_addr(labeled.message.addr@) {
        name_lookup::lookup_post(labeled, tables.filter, r)
    } else if patterns::spec_fx_type_addr(labeled.message.addr@) {
        name_lookup::lookup_post(labeled, tables.fx, r)
    } else {
        r == Result::<LabeledMessage, TranslationError>::Ok(labeled)
    }
}

/// Routes a message through the pattern-bound tables, exactly as
/// `table_rules_post` states.
pub fn apply_tables(labeled: LabeledMessage, tables: &Tables) -> (r: Result<
    LabeledMessage,
    TranslationError,
>)
    ensures
        table_rules_post(labeled, *tables, r),
{
    if patterns::is_filter_type_addr(labeled.message.addr.as_str()) {
        translate_filter_type(labeled, tables)
    } else if patterns::is_fx_type_addr(labeled.message.addr.as_str()) {
        translate_fx_type(labeled, tables)
    } else {
        Ok(labeled)
    }
}

/// The normalized-value rewrite applies: the message heads to the
/// controller and its first argument is a string containing the
/// normalized-value marker.
pub open spec fn spec_normalized_candidate(labeled: LabeledMessage) -> bool {
    &&& labeled.peer_send.kind is Controller
    &&& labeled.message.args@.len() > 0
    &&& labeled.message.args@[0] is Str
    &&& contains_seq(labeled.message.args@[0]->Str_0@, "(normalized)"@)
}

/// Where one dispatch step ended: a finished message, a message for the
/// system handler, or a rewrite waiting for its token to be parsed as a
/// floating-point value.
pub enum Processed {
    Done(LabeledMessage),
    System(LabeledMessage),
    NeedsFloat { token: String, labeled: LabeledMessage },
}

/// Inspects a message and routes it: an address beginning with the reserved
/// prefix goes to the system handler verbatim; a normalized-value candidate hands back the
/// token whose parsed value should replace the first argument; anything
/// else goes through the pattern-bound tables or passes through unchanged.
pub fn extension_processor(labeled: LabeledMessage, tables: &Tables) -> (r: Result<
    Processed,
    TranslationError,
>)
    ensures
        starts_with_seq(labeled.message.addr@, "/sys/"@) ==> r == Result::<
            Processed,
            TranslationError,
        >::Ok(Processed::System(labeled)),
        !starts_with_seq(labeled.message.addr@, "/sys/"@) && spec_normalized_candidate(labeled)
            && spec_second_last_token(labeled.message.args@[0]->Str_0@) is Some ==> (r matches Ok(
        Processed::NeedsFloat { token, labeled: l }) && Some(token@) == spec_second_last_token(
            labeled.message.args@[0]->Str_0@,
        ) && l == labeled),
        !starts_with_seq(labeled.message.addr@, "/sys/"@) && (!spec_normalized_candidate(labeled)
            || spec_second_last_token(labeled.message.args@[0]->Str_0@) is None) ==> match r {
            Ok(p) => (p matches Processed::Done(m) && table_rules_post(
                labeled,
                *tables,
                Result::<LabeledMessage, TranslationError>::Ok(m),
            )),
            Err(e) => table_rules_post(
                labeled,
                *tables,
                Result::<LabeledMessage, TranslationError>::Err(e),
            ),
        },
{
    if starts_with_sub(labeled.message.addr.as_str(), "/sys/") {
        return Ok(Processed::System(labeled));
    }
    let is_controller = matches!(labeled.peer_send.kind, PeerKind::Controller);
    if is_controller && labeled.message.args.len() > 0 {
        let token_opt = match &labeled.message.args[0] {
            Arg::Str(s) => {
                if contains_sub(s.as_str(), "(normalized)") {
                    second_last_token(s.as_str())
                } else {
                    None
                }
            },
            _ => None,
        };
        match token_opt {
            Some(token) => {
                return Ok(Processed::NeedsFloat { token, labeled });
            },
            None => {},
        }
    }
    match apply_tables(labeled, tables) {
        Ok(m) => Ok(Processed::Done(m)),
        Err(e) => Err(e),
    }
}

/// The message after the normalized-value rewrite: everything kept but the
/// first argument, which became the parsed floating-point value.
pub open spec fn float_resumed(from: LabeledMessage, mid: LabeledMessage, bits: u32) -> bool {
    &&& mid.peer_recv == from.peer_recv
    &&& mid.peer_send == from.peer_send
    &&& mid.message.addr == from.message.addr
    &&& mid.message.args@ == from.message.args@.update(0, Arg::Float(bits))
}

/// Finishes a dispatch that waited for a token to be parsed: a successful
/// parse replaces the first argument with the value's bit pattern (a failed
/// one leaves the message unchanged), and the message then goes on through
/// the pattern-bound tables.
pub fn resume_with_float(labeled: LabeledMessage, bits: Option<u32>, tables: &Tables) -> (r: Result<
    LabeledMessage,
    TranslationError,
>)
    ensures
        match bits {
            Some(b) => if labeled.message.args@.len() > 0 {
                exists|mid: LabeledMessage|
                    #[trigger] float_resumed(labeled, mid, b) && table_rules_post(mid, *tables, r)
            } else {
                table_rules_post(labeled, *tables, r)
            },
            None => table_rules_post(labeled, *tables, r),
        },
{
    let mut labeled = labeled;
    match bits {
        Some(b) => {
            if labeled.message.args.len() > 0 {
                let ghost before = labeled;
                labeled.message.args[0] = Arg::Float(b);
                let ghost mid = labeled;
                proof {
                    assert(float_resumed(before, mid, b));
                }
                apply_tables(labeled, tables)
            } else {
                apply_tables(labeled, tables)
            }
        },
        None => apply_tables(labeled, tables),
    }
}

} // verus!
