//! Argument checks of the C interface to scope stacks.

use vstd::prelude::*;

verus! {

/// Status codes returned across the C interface.
#[derive(Debug, Clone, Copy, PartialEq, Eq, Structural)]
pub enum NemoRelayStatus {
    /// The call succeeded (the C side names it `Ok`).
    Success,
    /// A required pointer argument was null.
    NullPointer,
}

/// The pointer argument of a scope-stack call.
#[derive(Debug, Clone, Copy, PartialEq, Eq, Structural)]
pub enum ScopeStackPointer {
    /// The out-parameter that receives a new handle.
    Out,
    /// A scope stack handle.
    Stack,
    /// A captured thread binding.
    Binding,
}

/// The last-error message recorded when the pointer argument is null.
pub open spec fn null_pointer_message_of(arg: ScopeStackPointer) -> Seq<char> {
    match arg {
        ScopeStackPointer::Out => "out pointer is null"@,
        ScopeStackPointer::Stack => "stack pointer is null"@,
        ScopeStackPointer::Binding => "binding pointer is null"@,
    }
}

/// Each pointer argument has its own message, naming that argument.
pub proof fn lemma_null_pointer_messages()
    ensures
        null_pointer_message_of(ScopeStackPointer::Out) == "out pointer is null"@,
        null_pointer_message_of(ScopeStackPointer::Stack) == "stack pointer is null"@,
        null_pointer_message_of(ScopeStackPointer::Binding) == "binding pointer is null"@,
{
}

/// The last-error message recorded when the pointer argument is null.
pub fn null_pointer_message(arg: ScopeStackPointer) -> (r: &'static str)
    ensures
        r@ == null_pointer_message_of(arg),
{
    match arg {
        ScopeStackPointer::Out => "out pointer is null",
        ScopeStackPointer::Stack => "stack pointer is null",
        ScopeStackPointer::Binding => "binding pointer is null",
    }
}

/// The check that every scope-stack call makes before its work: a null pointer
/// argument ends the call with [`NemoRelayStatus::NullPointer`] and its message;
/// otherwise the call proceeds.
pub fn check_scope_stack_pointer(arg: ScopeStackPointer, is_null: bool) -> (r: Result<
    (),
    (NemoRelayStatus, &'static str),
>)
    ensures
        r is Ok <==> !is_null,
        r matches Err((status, m)) ==> status == NemoRelayStatus::NullPointer && m@
            == null_pointer_message_of(arg),
{
    if is_null {
        Err((NemoRelayStatus::NullPointer, null_pointer_message(arg)))
    } else {
        Ok(())
    }
}

} // verus!
