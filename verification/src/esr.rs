//! Decoding of the Exception Syndrome Register (ESR_ELx).
use vstd::prelude::*;
use vstd::string::StringSliceAdditionalSpecFns;

verus! {

/// Exception class: bits [31:26] of the syndrome.
pub open spec fn exception_class(esr: u64) -> u64 {
    (esr >> 26) & 0x3f
}

/// Fault status code of a data or instruction abort: bits [5:0] of the syndrome.
pub open spec fn fault_status_code(esr: u64) -> u64 {
    esr & 0x3f
}

/// The four abort classes: instruction abort from a lower or the same
/// exception level (0x20, 0x21), data abort from a lower or the same level
/// (0x24, 0x25).
pub open spec fn is_abort_class(ec: u64) -> bool {
    ec == 0x20 || ec == 0x21 || ec == 0x24 || ec == 0x25
}

/// What a syndrome says happened, as far as the handler tells faults apart.
#[derive(Clone, Copy, Debug, PartialEq, Eq)]
pub enum FaultKind {
    AddressSize,
    Translation,
    AccessFlag,
    Permission,
    SynchronousExternalAbort,
    SynchronousExternalAbortOnTableWalk,
    ParityOrEcc,
    ParityOrEccOnTableWalk,
    Alignment,
    TlbConflict,
    OtherAbort,
    Unknown,
}

/// The fault kind of a syndrome: `Unknown` unless its class is an abort,
/// else given by ranges of the fault status code.
pub open spec fn fault_kind(esr: u64) -> FaultKind {
    let fsc = fault_status_code(esr);
    if !is_abort_class(exception_class(esr)) {
        FaultKind::Unknown
    } else if fsc <= 0b000011 {
        FaultKind::AddressSize
    } else if fsc <= 0b000111 {
        FaultKind::Translation
    } else if fsc <= 0b001011 {
        FaultKind::AccessFlag
    } else if fsc <= 0b001111 {
        FaultKind::Permission
    } else if fsc == 0b010000 {
        FaultKind::SynchronousExternalAbort
    } else if 0b010100 <= fsc <= 0b010111 {
        FaultKind::SynchronousExternalAbortOnTableWalk
    } else if fsc == 0b011000 {
        FaultKind::ParityOrEcc
    } else if 0b011100 <= fsc <= 0b011111 {
        FaultKind::ParityOrEccOnTableWalk
    } else if fsc == 0b100001 {
        FaultKind::Alignment
    } else if fsc == 0b110000 {
        FaultKind::TlbConflict
    } else {
        FaultKind::OtherAbort
    }
}

/// The text by which the handler names a fault kind.
pub open spec fn fault_label(kind: FaultKind) -> &'static str {
    match kind {
        FaultKind::AddressSize => "address size fault",
        FaultKind::Translation => "translation fault",
        FaultKind::AccessFlag => "access flag fault",
        FaultKind::Permission => "permission fault",
        FaultKind::SynchronousExternalAbort => "synchronous external abort",
        FaultKind::SynchronousExternalAbortOnTableWalk => "synchronous external abort on table walk",
        FaultKind::ParityOrEcc => "parity or ecc error",
        FaultKind::ParityOrEccOnTableWalk => "parity or ecc error on table walk",
        FaultKind::Alignment => "alignment fault",
        FaultKind::TlbConflict => "tlb conflict abort",
        FaultKind::OtherAbort => "other abort",
        FaultKind::Unknown => "unknown",
    }
}

impl FaultKind {
    /// The name of this fault kind.
    pub fn label(&self) -> (name: &'static str)
        ensures
            name == fault_label(*self),
    {
        match self {
            FaultKind::AddressSize => "address size fault",
            FaultKind::Translation => "translation fault",
            FaultKind::AccessFlag => "access flag fault",
            FaultKind::Permission => "permission fault",
            FaultKind::SynchronousExternalAbort => "synchronous external abort",
            FaultKind::SynchronousExternalAbortOnTableWalk => "synchronous external abort on table walk",
            FaultKind::ParityOrEcc => "parity or ecc error",
            FaultKind::ParityOrEccOnTableWalk => "parity or ecc error on table walk",
            FaultKind::Alignment => "alignment fault",
            FaultKind::TlbConflict => "tlb conflict abort",
            FaultKind::OtherAbort => "other abort",
            FaultKind::Unknown => "unknown",
        }
    }
}

/// The exception class of a syndrome.
pub fn esr_exception_class(esr: u64) -> (ec: u64)
    ensures
        ec == exception_class(esr),
        ec <= 0x3f,
{
    let ec = (esr >> 26) & 0x3f;
    assert(ec <= 0x3f) by (bit_vector)
        requires
            ec == (esr >> 26) & 0x3f,
    ;
    ec
}

/// The fault status code of a syndrome.
pub fn esr_fault_status_code(esr: u64) -> (fsc: u64)
    ensures
        fsc == fault_status_code(esr),
        fsc <= 0x3f,
{
    let fsc = esr & 0x3f;
    assert(fsc <= 0x3f) by (bit_vector)
        requires
            fsc == esr & 0x3f,
    ;
    fsc
}

/// Whether the syndrome is that of an instruction or data abort.
pub fn is_abort_exception(esr: u64) -> (abort: bool)
    ensures
        abort == is_abort_class(exception_class(esr)),
{
    let ec = esr_exception_class(esr);
    ec == 0x20 || ec == 0x21 || ec == 0x24 || ec == 0x25
}

/// Whether the syndrome is that of an abort caused by a translation fault
/// (at any lookup level).
pub fn is_translation_fault(esr: u64) -> (translation: bool)
    ensures
        translation == (is_abort_class(exception_class(esr)) && 0b000100 <= fault_status_code(esr)
            <= 0b000111),
{
    let ec = esr_exception_class(esr);
    let fsc = esr_fault_status_code(esr);
    (ec == 0x20 || ec == 0x21 || ec == 0x24 || ec == 0x25) && (0b000100 <= fsc && fsc <= 0b000111)
}

/// Whether the syndrome is that of an abort caused by an address size fault
/// (at any lookup level).
pub fn is_address_size_fault(esr: u64) -> (address_size: bool)
    ensures
        address_size == (is_abort_class(exception_class(esr)) && fault_status_code(esr)
            <= 0b000011),
{
    let ec = esr_exception_class(esr);
    let fsc = esr_fault_status_code(esr);
    (ec == 0x20 || ec == 0x21 || ec == 0x24 || ec == 0x25) && fsc <= 0b000011
}

/// The fault kind of a syndrome.
pub fn classify_fault(esr: u64) -> (kind: FaultKind)
    ensures
        kind == fault_kind(esr),
{
    let ec = esr_exception_class(esr);
    let fsc = esr_fault_status_code(esr);
    if !(ec == 0x20 || ec == 0x21 || ec == 0x24 || ec == 0x25) {
        FaultKind::Unknown
    } else if fsc <= 0b000011 {
        FaultKind::AddressSize
    } else if fsc <= 0b000111 {
        FaultKind::Translation
    } else if fsc <= 0b001011 {
        FaultKind::AccessFlag
    } else if fsc <= 0b001111 {
        FaultKind::Permission
    } else if fsc == 0b010000 {
        FaultKind::SynchronousExternalAbort
    } else if 0b010100 <= fsc && fsc <= 0b010111 {
        FaultKind::SynchronousExternalAbortOnTableWalk
    } else if fsc == 0b011000 {
        FaultKind::ParityOrEcc
    } else if 0b011100 <= fsc && fsc <= 0b011111 {
        FaultKind::ParityOrEccOnTableWalk
    } else if fsc == 0b100001 {
        FaultKind::Alignment
    } else if fsc == 0b110000 {
        FaultKind::TlbConflict
    } else {
        FaultKind::OtherAbort
    }
}

/// The name of the fault that a syndrome reports, as bytes.
pub fn fault_name(esr: u64) -> (name: &'static [u8])
    ensures
        name@ == fault_label(fault_kind(esr)).spec_bytes(),
{
    let kind = classify_fault(esr);
    kind.label().as_bytes()
}

/// A translation fault is exactly a fault of kind `Translation`, an address
/// size fault exactly one of kind `AddressSize`; so no syndrome is both.
pub proof fn lemma_fault_predicates_match_kind(esr: u64)
    ensures
        (is_abort_class(exception_class(esr)) && 0b000100 <= fault_status_code(esr) <= 0b000111)
            <==> fault_kind(esr) == FaultKind::Translation,
        (is_abort_class(exception_class(esr)) && fault_status_code(esr) <= 0b000011)
            <==> fault_kind(esr) == FaultKind::AddressSize,
        !((is_abort_class(exception_class(esr)) && 0b000100 <= fault_status_code(esr)
            <= 0b000111) && (is_abort_class(exception_class(esr)) && fault_status_code(esr)
            <= 0b000011)),
{
}

/// A syndrome is named `unknown` exactly when it is not an abort; every abort
/// gets one of the abort names.
pub proof fn lemma_unknown_iff_not_abort(esr: u64)
    ensures
        fault_kind(esr) == FaultKind::Unknown <==> !is_abort_class(exception_class(esr)),
{
}

/// The decoding reads only the exception class and the fault status code:
/// syndromes that agree on both get the same fault kind.
pub proof fn lemma_fault_kind_reads_only_ec_and_fsc(a: u64, b: u64)
    requires
        exception_class(a) == exception_class(b),
        fault_status_code(a) == fault_status_code(b),
    ensures
        fault_kind(a) == fault_kind(b),
{
}

/// The architecture's table of abort syndromes, read straight off the bits:
/// the class is bits [31:26] and an abort is an instruction abort (0x20 from a
/// lower level, 0x21 from the same level) or a data abort (0x24, 0x25); for
/// an abort, each range of fault status codes (bits [5:0]) covers the lookup
/// levels of one fault, and every level of the range decodes to that fault,
/// under its name. Every other class decodes to `Unknown`.
pub proof fn lemma_abort_syndrome_table(esr: u64, ec: u64, fsc: u64)
    requires
        ec == (esr >> 26) & 0x3f,
        fsc == esr & 0x3f,
    ensures
        is_abort_class(exception_class(esr)) <==> (ec == 0x20 || ec == 0x21 || ec == 0x24 || ec
            == 0x25),
        !(ec == 0x20 || ec == 0x21 || ec == 0x24 || ec == 0x25) ==> fault_kind(esr)
            == FaultKind::Unknown && fault_label(fault_kind(esr)) == "unknown",
        (ec == 0x20 || ec == 0x21 || ec == 0x24 || ec == 0x25) ==> {
            &&& fsc <= 0x03 ==> fault_kind(esr) == FaultKind::AddressSize && fault_label(
                fault_kind(esr),
            ) == "address size fault"
            &&& 0x04 <= fsc <= 0x07 ==> fault_kind(esr) == FaultKind::Translation && fault_label(
                fault_kind(esr),
            ) == "translation fault"
            &&& 0x08 <= fsc <= 0x0b ==> fault_kind(esr) == FaultKind::AccessFlag && fault_label(
                fault_kind(esr),
            ) == "access flag fault"
            &&& 0x0c <= fsc <= 0x0f ==> fault_kind(esr) == FaultKind::Permission && fault_label(
                fault_kind(esr),
            ) == "permission fault"
            &&& fsc == 0x10 ==> fault_kind(esr) == FaultKind::SynchronousExternalAbort
                && fault_label(fault_kind(esr)) == "synchronous external abort"
            &&& 0x14 <= fsc <= 0x17 ==> fault_kind(esr)
                == FaultKind::SynchronousExternalAbortOnTableWalk && fault_label(fault_kind(esr))
                == "synchronous external abort on table walk"
            &&& fsc == 0x18 ==> fault_kind(esr) == FaultKind::ParityOrEcc && fault_label(
                fault_kind(esr),
            ) == "parity or ecc error"
            &&& 0x1c <= fsc <= 0x1f ==> fault_kind(esr) == FaultKind::ParityOrEccOnTableWalk
                && fault_label(fault_kind(esr)) == "parity or ecc error on table walk"
            &&& fsc == 0x21 ==> fault_kind(esr) == FaultKind::Alignment && fault_label(
                fault_kind(esr),
            ) == "alignment fault"
            &&& fsc == 0x30 ==> fault_kind(esr) == FaultKind::TlbConflict && fault_label(
                fault_kind(esr),
            ) == "tlb conflict abort"
            &&& (0x11 <= fsc <= 0x13 || 0x19 <= fsc <= 0x1b || fsc == 0x20 || 0x22 <= fsc <= 0x2f
                || 0x31 <= fsc) ==> fault_kind(esr) == FaultKind::OtherAbort && fault_label(
                fault_kind(esr),
            ) == "other abort"
        },
{
}

/// The two fault lines of the handler are decided on the raw bits: a
/// translation fault is an abort class with status code 0x04..0x07 (levels
/// 0-3), an address size fault one with status code 0x00..0x03; so they
/// match the kinds `Translation` and `AddressSize`, and never both hold.
pub proof fn lemma_fault_lines_on_raw_bits(esr: u64, ec: u64, fsc: u64)
    requires
        ec == (esr >> 26) & 0x3f,
        fsc == esr & 0x3f,
    ensures
        (is_abort_class(exception_class(esr)) && 0b000100 <= fault_status_code(esr) <= 0b000111)
            <==> ((ec == 0x20 || ec == 0x21 || ec == 0x24 || ec == 0x25) && 0x04 <= fsc <= 0x07),
        (is_abort_class(exception_class(esr)) && fault_status_code(esr) <= 0b000011) <==> ((ec
            == 0x20 || ec == 0x21 || ec == 0x24 || ec == 0x25) && fsc <= 0x03),
        ((ec == 0x20 || ec == 0x21 || ec == 0x24 || ec == 0x25) && 0x04 <= fsc <= 0x07) <==> fault_kind(
            esr,
        ) == FaultKind::Translation,
        ((ec == 0x20 || ec == 0x21 || ec == 0x24 || ec == 0x25) && fsc <= 0x03) <==> fault_kind(esr)
            == FaultKind::AddressSize,
{
}

/// Two syndromes with the same bits [31:26] and [5:0] decode alike,
/// whatever the other bits (ISS details such as write-not-read, the
/// register, or bits above 31).
pub proof fn lemma_decoding_ignores_other_bits(a: u64, b: u64)
    requires
        (a >> 26) & 0x3f == (b >> 26) & 0x3f,
        a & 0x3f == b & 0x3f,
    ensures
        fault_kind(a) == fault_kind(b),
        is_abort_class(exception_class(a)) == is_abort_class(exception_class(b)),
{
}

} // verus!
