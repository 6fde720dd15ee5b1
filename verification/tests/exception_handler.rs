use aarch64_boot::exception::{
    is_synchronous_vector, put_vector_name, rust_exception_handler, should_resume_after_test,
    vector_name, ExceptionFrame, HandlerAction, ReportPart,
};

fn frame(vector: u64, esr: u64, elr: u64) -> ExceptionFrame {
    let mut regs = [0u64; 31];
    for (i, r) in regs.iter_mut().enumerate() {
        *r = i as u64 * 3;
    }
    ExceptionFrame { regs, vector, esr, far: 0x8000_0000, elr, spsr: 0x3c5 }
}

fn head(f: &ExceptionFrame, vector: &'static str, decoded: &'static str) -> Vec<ReportPart> {
    vec![
        ReportPart::Text("\r\nexception: "),
        ReportPart::Text(vector),
        ReportPart::Text("\r\n"),
        ReportPart::Text("esr="),
        ReportPart::Hex(f.esr),
        ReportPart::Text("\r\nfar="),
        ReportPart::Hex(f.far),
        ReportPart::Text("\r\nelr="),
        ReportPart::Hex(f.elr),
        ReportPart::Text("\r\nspsr="),
        ReportPart::Hex(f.spsr),
        ReportPart::Text("\r\n"),
        ReportPart::Text("decoded: "),
        ReportPart::Text(decoded),
        ReportPart::Text("\r\n"),
    ]
}

#[test]
fn vector_names() {
    let names = [
        "current_el_sp0_sync",
        "current_el_sp0_irq",
        "current_el_sp0_fiq",
        "current_el_sp0_serror",
        "current_el_spx_sync",
        "current_el_spx_irq",
        "current_el_spx_fiq",
        "current_el_spx_serror",
        "lower_el_a64_sync",
        "lower_el_a64_irq",
        "lower_el_a64_fiq",
        "lower_el_a64_serror",
        "lower_el_a32_sync",
        "lower_el_a32_irq",
        "lower_el_a32_fiq",
        "lower_el_a32_serror",
    ];
    for (v, name) in names.iter().enumerate() {
        assert_eq!(vector_name(v as u64), *name);
    }
    assert_eq!(vector_name(16), "unknown");
    assert_eq!(vector_name(u64::MAX), "unknown");
}

#[test]
fn put_vector_name_appends_the_name() {
    let mut report = vec![ReportPart::Hex(7)];
    put_vector_name(&mut report, 9);
    assert_eq!(report, vec![ReportPart::Hex(7), ReportPart::Text("lower_el_a64_irq")]);
    put_vector_name(&mut report, 99);
    assert_eq!(report.len(), 3);
    assert_eq!(report[2], ReportPart::Text("unknown"));
}

#[test]
fn synchronous_vectors_are_the_first_of_each_group() {
    for v in 0u64..20 {
        assert_eq!(is_synchronous_vector(v), v < 16 && v % 4 == 0, "vector {}", v);
    }
}

#[test]
fn resume_needs_a_synchronous_abort() {
    assert!(should_resume_after_test(&frame(4, 0x9600_0007, 0)));
    assert!(should_resume_after_test(&frame(0, 0x8600_0010, 0)));
    assert!(should_resume_after_test(&frame(8, 0x9200_0021, 0)));
    assert!(!should_resume_after_test(&frame(5, 0x9600_0007, 0)));
    assert!(!should_resume_after_test(&frame(4, 0x5600_0000, 0)));
    assert!(!should_resume_after_test(&frame(16, 0x9600_0007, 0)));
}

#[test]
fn translation_fault_in_a_test_build_resumes_past_the_load() {
    let mut f = frame(4, 0x9600_0006, 0x4008_1234);
    let before = f;
    let out = rust_exception_handler(&mut f, true);
    assert_eq!(out.action, HandlerAction::Resume);
    let mut expected = head(&before, "current_el_spx_sync", "translation fault");
    expected.push(ReportPart::Text("Translation Fault\r\n"));
    expected.push(ReportPart::Text("test enabled: resume at next instruction\r\n"));
    assert_eq!(out.report, expected);
    assert_eq!(f.elr, 0x4008_1238);
    assert_eq!(ExceptionFrame { elr: before.elr, ..f }, before);
}

#[test]
fn translation_fault_without_test_halts_and_keeps_the_frame() {
    let mut f = frame(4, 0x9600_0006, 0x4008_1234);
    let before = f;
    let out = rust_exception_handler(&mut f, false);
    assert_eq!(out.action, HandlerAction::Halt);
    let mut expected = head(&before, "current_el_spx_sync", "translation fault");
    expected.push(ReportPart::Text("Translation Fault\r\n"));
    assert_eq!(out.report, expected);
    assert_eq!(f, before);
}

#[test]
fn address_size_fault_is_reported_on_its_own_line() {
    let mut f = frame(8, 0x9200_0002, 0x1000);
    let before = f;
    let out = rust_exception_handler(&mut f, false);
    let mut expected = head(&before, "lower_el_a64_sync", "address size fault");
    expected.push(ReportPart::Text("Address Size Fault\r\n"));
    assert_eq!(out.report, expected);
    assert_eq!(out.action, HandlerAction::Halt);
}

#[test]
fn external_abort_resumes_with_no_fault_line() {
    let mut f = frame(4, 0x9600_0010, 0x2000);
    let before = f;
    let out = rust_exception_handler(&mut f, true);
    let mut expected = head(&before, "current_el_spx_sync", "synchronous external abort");
    expected.push(ReportPart::Text("test enabled: resume at next instruction\r\n"));
    assert_eq!(out.report, expected);
    assert_eq!(out.action, HandlerAction::Resume);
    assert_eq!(f.elr, 0x2004);
}

#[test]
fn interrupts_and_other_exceptions_halt_even_in_a_test_build() {
    let mut irq = frame(5, 0, 0x3000);
    let before = irq;
    let out = rust_exception_handler(&mut irq, true);
    assert_eq!(out.action, HandlerAction::Halt);
    assert_eq!(out.report, head(&before, "current_el_spx_irq", "unknown"));
    assert_eq!(irq, before);

    let mut svc = frame(4, 0x5600_0000, 0x3000);
    let out = rust_exception_handler(&mut svc, true);
    assert_eq!(out.action, HandlerAction::Halt);
    assert_eq!(svc.elr, 0x3000);
}

#[test]
fn resume_address_wraps_around() {
    let mut f = frame(0, 0x9600_0005, u64::MAX - 1);
    let out = rust_exception_handler(&mut f, true);
    assert_eq!(out.action, HandlerAction::Resume);
    assert_eq!(f.elr, 2);
}
