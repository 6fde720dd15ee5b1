//! The exception handler's report and decision, and the names of the
//! exception vectors.
use vstd::prelude::*;
use crate::esr::{
    classify_fault, exception_class, fault_kind, fault_label, fault_status_code, is_abort_class,
    is_abort_exception, is_address_size_fault, is_translation_fault,
};

verus! {

/// The registers that the vector code saves before it calls the handler:
/// the general registers x0..x30, the number of the vector taken, and the
/// syndrome, fault address, exception link and saved program status
/// registers of the exception level that took it.
#[derive(Clone, Copy, Debug, PartialEq, Eq)]
pub struct ExceptionFrame {
    pub regs: [u64; 31],
    pub vector: u64,
    pub esr: u64,
    pub far: u64,
    pub elr: u64,
    pub spsr: u64,
}

/// One piece of the handler's report: a text, or a number that the console
/// prints in hexadecimal.
#[derive(Clone, Copy, Debug, PartialEq, Eq)]
pub enum ReportPart {
    Text(&'static str),
    Hex(u64),
}

/// What the handler does once it has reported: go back to the interrupted
/// code, or stop there.
#[derive(Clone, Copy, Debug, PartialEq, Eq)]
pub enum HandlerAction {
    Resume,
    Halt,
}

/// The report of one exception and what the handler does after it.
#[derive(Debug)]
pub struct HandlerOutcome {
    pub report: Vec<ReportPart>,
    pub action: HandlerAction,
}

/// The name of a vector by its number in the table: four groups (current
/// level with SP0, current level with SPx, lower level AArch64, lower level
/// AArch32) of four kinds (synchronous, IRQ, FIQ, SError).
pub open spec fn vector_label(vector: u64) -> &'static str {
    if vector == 0 {
        "current_el_sp0_sync"
    } else if vector == 1 {
        "current_el_sp0_irq"
    } else if vector == 2 {
        "current_el_sp0_fiq"
    } else if vector == 3 {
        "current_el_sp0_serror"
    } else if vector == 4 {
        "current_el_spx_sync"
    } else if vector == 5 {
        "current_el_spx_irq"
    } else if vector == 6 {
        "current_el_spx_fiq"
    } else if vector == 7 {
        "current_el_spx_serror"
    } else if vector == 8 {
        "lower_el_a64_sync"
    } else if vector == 9 {
        "lower_el_a64_irq"
    } else if vector == 10 {
        "lower_el_a64_fiq"
    } else if vector == 11 {
        "lower_el_a64_serror"
    } else if vector == 12 {
        "lower_el_a32_sync"
    } else if vector == 13 {
        "lower_el_a32_irq"
    } else if vector == 14 {
        "lower_el_a32_fiq"
    } else if vector == 15 {
        "lower_el_a32_serror"
    } else {
        "unknown"
    }
}

/// The synchronous vectors: the first of each group of four.
pub open spec fn is_synchronous(vector: u64) -> bool {
    vector == 0 || vector == 4 || vector == 8 || vector == 12
}

/// Whether a test build goes on after this exception: a synchronous
/// exception that is an instruction or data abort.
pub open spec fn resumable(frame: ExceptionFrame) -> bool {
    is_synchronous(frame.vector) && is_abort_class(exception_class(frame.esr))
}

/// The report of an exception, in the order in which it is printed; the last
/// line is there only when the handler resumes.
pub open spec fn exception_report(frame: ExceptionFrame, resumes: bool) -> Seq<ReportPart> {
    let esr = frame.esr;
    let ec = exception_class(esr);
    let fsc = fault_status_code(esr);
    let head = seq![
        ReportPart::Text("\r\nexception: "),
        ReportPart::Text(vector_label(frame.vector)),
        ReportPart::Text("\r\n"),
        ReportPart::Text("esr="),
        ReportPart::Hex(esr),
        ReportPart::Text("\r\nfar="),
        ReportPart::Hex(frame.far),
        ReportPart::Text("\r\nelr="),
        ReportPart::Hex(frame.elr),
        ReportPart::Text("\r\nspsr="),
        ReportPart::Hex(frame.spsr),
        ReportPart::Text("\r\n"),
        ReportPart::Text("decoded: "),
        ReportPart::Text(fault_label(fault_kind(esr))),
        ReportPart::Text("\r\n"),
    ];
    let address_size = if is_abort_class(ec) && fsc <= 0b000011 {
        seq![ReportPart::Text("Address Size Fault\r\n")]
    } else {
        Seq::empty()
    };
    let translation = if is_abort_class(ec) && 0b000100 <= fsc <= 0b000111 {
        seq![ReportPart::Text("Translation Fault\r\n")]
    } else {
        Seq::empty()
    };
    let resume = if resumes {
        seq![ReportPart::Text("test enabled: resume at next instruction\r\n")]
    } else {
        Seq::empty()
    };
    head + address_size + translation + resume
}

/// The name of a vector, as text.
pub fn vector_name(vector: u64) -> (name: &'static str)
    ensures
        name == vector_label(vector),
{
    match vector {
        0 => "current_el_sp0_sync",
        1 => "current_el_sp0_irq",
        2 => "current_el_sp0_fiq",
        3 => "current_el_sp0_serror",
        4 => "current_el_spx_sync",
        5 => "current_el_spx_irq",
        6 => "current_el_spx_fiq",
        7 => "current_el_spx_serror",
        8 => "lower_el_a64_sync",
        9 => "lower_el_a64_irq",
        10 => "lower_el_a64_fiq",
        11 => "lower_el_a64_serror",
        12 => "lower_el_a32_sync",
        13 => "lower_el_a32_irq",
        14 => "lower_el_a32_fiq",
        15 => "lower_el_a32_serror",
        _ => "unknown",
    }
}

/// Appends the name of a vector to a report.
pub fn put_vector_name(report: &mut Vec<ReportPart>, vector: u64)
    ensures
        final(report)@ == old(report)@.push(ReportPart::Text(vector_label(vector))),
{
    report.push(ReportPart::Text(vector_name(vector)));
}

/// Whether a vector is one of the four synchronous ones.
pub fn is_synchronous_vector(vector: u64) -> (sync: bool)
    ensures
        sync == is_synchronous(vector),
{
    vector == 0 || vector == 4 || vector == 8 || vector == 12
}

/// Whether a test build resumes after this exception.
pub fn should_resume_after_test(frame: &ExceptionFrame) -> (resume: bool)
    ensures
        resume == resumable(*frame),
{
    is_synchronous_vector(frame.vector) && is_abort_exception(frame.esr)
}

/// Reports an exception and decides what follows. Where `resume_after_abort`
/// holds (a build that provokes faults on purpose) and the exception is a
/// synchronous abort, the return address is moved past the faulting
/// instruction and the handler resumes; otherwise it halts and the frame is
/// left as it was.
pub fn rust_exception_handler(frame: &mut ExceptionFrame, resume_after_abort: bool) -> (outcome:
    HandlerOutcome)
    ensures
        outcome.action == (if resume_after_abort && resumable(*old(frame)) {
            HandlerAction::Resume
        } else {
            HandlerAction::Halt
        }),
        outcome.report@ == exception_report(
            *old(frame),
            outcome.action == HandlerAction::Resume,
        ),
        outcome.action == HandlerAction::Resume ==> *final(frame) == (ExceptionFrame {
            elr: old(frame).elr.wrapping_add(4),
            ..*old(frame)
        }),
        outcome.action == HandlerAction::Halt ==> *final(frame) == *old(frame),
{
    let mut report: Vec<ReportPart> = Vec::new();
    report.push(ReportPart::Text("\r\nexception: "));
    put_vector_name(&mut report, frame.vector);
    report.push(ReportPart::Text("\r\n"));

    report.push(ReportPart::Text("esr="));
    report.push(ReportPart::Hex(frame.esr));
    report.push(ReportPart::Text("\r\nfar="));
    report.push(ReportPart::Hex(frame.far));
    report.push(ReportPart::Text("\r\nelr="));
    report.push(ReportPart::Hex(frame.elr));
    report.push(ReportPart::Text("\r\nspsr="));
    report.push(ReportPart::Hex(frame.spsr));
    report.push(ReportPart::Text("\r\n"));

    report.push(ReportPart::Text("decoded: "));
    let kind = classify_fault(frame.esr);
    report.push(ReportPart::Text(kind.label()));
    report.push(ReportPart::Text("\r\n"));

    if is_address_size_fault(frame.esr) {
        report.push(ReportPart::Text("Address Size Fault\r\n"));
    }

    if is_translation_fault(frame.esr) {
        report.push(ReportPart::Text("Translation Fault\r\n"));
    }

    if resume_after_abort && should_resume_after_test(frame) {
        report.push(ReportPart::Text("test enabled: resume at next instruction\r\n"));
        frame.elr = frame.elr.wrapping_add(4);
        return HandlerOutcome { report, action: HandlerAction::Resume };
    }
    HandlerOutcome { report, action: HandlerAction::Halt }
}

/// A test build resumes exactly after an exception taken at a synchronous
/// vector (0, 4, 8, 12) whose class (bits [31:26] of the syndrome) is an
/// instruction or data abort (0x20, 0x21, 0x24, 0x25); nothing else in the
/// frame counts.
pub proof fn lemma_resume_decision(frame: ExceptionFrame, ec: u64)
    requires
        ec == (frame.esr >> 26) & 0x3f,
    ensures
        resumable(frame) <==> ((frame.vector == 0 || frame.vector == 4 || frame.vector == 8
            || frame.vector == 12) && (ec == 0x20 || ec == 0x21 || ec == 0x24 || ec == 0x25)),
{
}

/// Two frames taken at the same vector with the same exception class get
/// the same resume decision, whatever their other syndrome bits, registers
/// and addresses.
pub proof fn lemma_resume_reads_only_vector_and_class(a: ExceptionFrame, b: ExceptionFrame)
    requires
        a.vector == b.vector,
        (a.esr >> 26) & 0x3f == (b.esr >> 26) & 0x3f,
    ensures
        resumable(a) == resumable(b),
{
}

/// The shape of the report on the raw syndrome bits: fifteen fixed parts
/// (the vector's name, the four registers, the fault's name), then the
/// "Address Size Fault" line exactly for an abort class with status code
/// 0x00..0x03, then the "Translation Fault" line exactly for an abort class
/// with status code 0x04..0x07 (instruction and data aborts alike), then the
/// resume line exactly when the handler resumes.
pub proof fn lemma_report_lines(frame: ExceptionFrame, resumes: bool, ec: u64, fsc: u64)
    requires
        ec == (frame.esr >> 26) & 0x3f,
        fsc == frame.esr & 0x3f,
    ensures
        ({
            let report = exception_report(frame, resumes);
            let abort = ec == 0x20 || ec == 0x21 || ec == 0x24 || ec == 0x25;
            let address_size = abort && fsc <= 0x03;
            let translation = abort && 0x04 <= fsc <= 0x07;
            let a: int = if address_size {
                1
            } else {
                0
            };
            let t: int = if translation {
                1
            } else {
                0
            };
            let r: int = if resumes {
                1
            } else {
                0
            };
            &&& report.len() == 15 + a + t + r
            &&& !(address_size && translation)
            &&& report[0] == ReportPart::Text("\r\nexception: ")
            &&& report[1] == ReportPart::Text(vector_label(frame.vector))
            &&& report[4] == ReportPart::Hex(frame.esr)
            &&& report[6] == ReportPart::Hex(frame.far)
            &&& report[8] == ReportPart::Hex(frame.elr)
            &&& report[10] == ReportPart::Hex(frame.spsr)
            &&& report[13] == ReportPart::Text(fault_label(fault_kind(frame.esr)))
            &&& address_size ==> report[15] == ReportPart::Text("Address Size Fault\r\n")
            &&& translation ==> report[15] == ReportPart::Text("Translation Fault\r\n")
            &&& resumes ==> report[15 + a + t] == ReportPart::Text(
                "test enabled: resume at next instruction\r\n",
            )
        }),
{
}

} // verus!
