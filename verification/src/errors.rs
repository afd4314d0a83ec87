//! Error notifications: the fields of the `NOTIFICATION` Thing that reports
//! an error, locally or as a global alert. Creating the Thing is the
//! caller's part.

use vstd::prelude::*;
use crate::abi::{SymbolMap, Value, ValueView};
use crate::canon::{Symbol, ACK, DETAILS, KIND, LEVEL, MESSAGE, NOTIFICATION, PERSIST, SCOPE};

verus! {

/// The fields shared by every error notification.
pub open spec fn spec_error_fields(message: Seq<char>, details: Seq<char>, scope: Seq<char>) -> Map<u32, ValueView> {
    map![
        KIND => ValueView::Symbol(NOTIFICATION),
        LEVEL => ValueView::Text("error"@),
        MESSAGE => ValueView::Text(message),
        DETAILS => ValueView::Text(details),
        SCOPE => ValueView::Text(scope),
        ACK => ValueView::Bool(false)
    ]
}

/// The fields of a local error notification.
pub open spec fn spec_notify_error(message: Seq<char>, details: Seq<char>) -> Map<u32, ValueView> {
    spec_error_fields(message, details, "local"@)
}

/// The fields of a global alert: a global error notification that persists.
pub open spec fn spec_global_alert(message: Seq<char>, details: Seq<char>) -> Map<u32, ValueView> {
    spec_error_fields(message, details, "global"@).insert(PERSIST, ValueView::Bool(true))
}

/// The fields of the notification that reports an error with a message and
/// details: level `error`, scope `local`, not yet acknowledged.
pub fn notify_error(message: &str, details: &str) -> (fields: SymbolMap)
    ensures
        fields@ == spec_notify_error(message@, details@),
{
    let mut fields = SymbolMap::new();
    fields.insert(Symbol(KIND), Value::Symbol(Symbol(NOTIFICATION)));
    fields.insert(Symbol(LEVEL), Value::text("error"));
    fields.insert(Symbol(MESSAGE), Value::text(message));
    fields.insert(Symbol(DETAILS), Value::text(details));
    fields.insert(Symbol(SCOPE), Value::text("local"));
    fields.insert(Symbol(ACK), Value::Bool(false));
    proof {
        assert(fields@ =~= spec_notify_error(message@, details@));
    }
    fields
}

/// The fields of the notification that raises an error for everyone: level
/// `error`, scope `global`, persisting until acknowledged.
pub fn raise_global_alert(message: &str, details: &str) -> (fields: SymbolMap)
    ensures
        fields@ == spec_global_alert(message@, details@),
{
    let mut fields = SymbolMap::new();
    fields.insert(Symbol(KIND), Value::Symbol(Symbol(NOTIFICATION)));
    fields.insert(Symbol(LEVEL), Value::text("error"));
    fields.insert(Symbol(MESSAGE), Value::text(message));
    fields.insert(Symbol(DETAILS), Value::text(details));
    fields.insert(Symbol(SCOPE), Value::text("global"));
    fields.insert(Symbol(PERSIST), Value::Bool(true));
    fields.insert(Symbol(ACK), Value::Bool(false));
    proof {
        assert(fields@ =~= spec_global_alert(message@, details@));
    }
    fields
}

/// Keep a success; turn a failure, given by its description, into the
/// notification labelled `label` that reports it.
pub fn with_notification<T>(label: &str, outcome: Result<T, String>) -> (r: (Option<T>, Option<SymbolMap>))
    ensures
        match outcome {
            Ok(v) => r.0 == Some(v) && r.1 is None,
            Err(e) => r.0 is None && (r.1 matches Some(m) && m@ == spec_notify_error(label@, e@)),
        },
{
    match outcome {
        Ok(v) => (Some(v), None),
        Err(e) => (None, Some(notify_error(label, e.as_str()))),
    }
}

} // verus!
