use aarch64_boot::esr::{
    classify_fault, esr_exception_class, esr_fault_status_code, fault_name, is_abort_exception,
    is_address_size_fault, is_translation_fault, FaultKind,
};

fn syndrome(ec: u64, fsc: u64) -> u64 {
    (ec << 26) | (1 << 25) | fsc
}

#[test]
fn data_abort_translation_fault_level_3() {
    let esr = 0x9600_0007;
    assert_eq!(esr_exception_class(esr), 0x25);
    assert_eq!(esr_fault_status_code(esr), 0x07);
    assert!(is_abort_exception(esr));
    assert!(is_translation_fault(esr));
    assert!(!is_address_size_fault(esr));
    assert_eq!(classify_fault(esr), FaultKind::Translation);
    assert_eq!(fault_name(esr), b"translation fault");
}

#[test]
fn every_abort_class_is_an_abort() {
    for ec in [0x20u64, 0x21, 0x24, 0x25] {
        assert!(is_abort_exception(syndrome(ec, 0x04)));
        assert!(is_translation_fault(syndrome(ec, 0x04)));
    }
    for ec in [0x00u64, 0x15, 0x16, 0x17, 0x22, 0x26, 0x2f, 0x3c] {
        assert!(!is_abort_exception(syndrome(ec, 0x04)));
        assert!(!is_translation_fault(syndrome(ec, 0x04)));
        assert!(!is_address_size_fault(syndrome(ec, 0x00)));
        assert_eq!(fault_name(syndrome(ec, 0x04)), b"unknown");
        assert_eq!(classify_fault(syndrome(ec, 0x04)), FaultKind::Unknown);
    }
}

#[test]
fn fault_status_code_ranges_name_the_fault() {
    let cases: [(u64, &[u8], FaultKind); 22] = [
        (0x00, b"address size fault", FaultKind::AddressSize),
        (0x03, b"address size fault", FaultKind::AddressSize),
        (0x04, b"translation fault", FaultKind::Translation),
        (0x07, b"translation fault", FaultKind::Translation),
        (0x08, b"access flag fault", FaultKind::AccessFlag),
        (0x0b, b"access flag fault", FaultKind::AccessFlag),
        (0x0c, b"permission fault", FaultKind::Permission),
        (0x0f, b"permission fault", FaultKind::Permission),
        (0x10, b"synchronous external abort", FaultKind::SynchronousExternalAbort),
        (0x11, b"other abort", FaultKind::OtherAbort),
        (0x13, b"other abort", FaultKind::OtherAbort),
        (0x14, b"synchronous external abort on table walk", FaultKind::SynchronousExternalAbortOnTableWalk),
        (0x17, b"synchronous external abort on table walk", FaultKind::SynchronousExternalAbortOnTableWalk),
        (0x18, b"parity or ecc error", FaultKind::ParityOrEcc),
        (0x19, b"other abort", FaultKind::OtherAbort),
        (0x1c, b"parity or ecc error on table walk", FaultKind::ParityOrEccOnTableWalk),
        (0x1f, b"parity or ecc error on table walk", FaultKind::ParityOrEccOnTableWalk),
        (0x20, b"other abort", FaultKind::OtherAbort),
        (0x21, b"alignment fault", FaultKind::Alignment),
        (0x30, b"tlb conflict abort", FaultKind::TlbConflict),
        (0x31, b"other abort", FaultKind::OtherAbort),
        (0x3f, b"other abort", FaultKind::OtherAbort),
    ];
    for (fsc, name, kind) in cases {
        let esr = syndrome(0x24, fsc);
        assert_eq!(fault_name(esr), name, "fsc {:#x}", fsc);
        assert_eq!(classify_fault(esr), kind, "fsc {:#x}", fsc);
        assert_eq!(is_translation_fault(esr), (0x04..=0x07).contains(&fsc));
        assert_eq!(is_address_size_fault(esr), fsc <= 0x03);
    }
}

#[test]
fn address_size_and_translation_faults_never_coincide() {
    for ec in 0u64..0x40 {
        for fsc in 0u64..0x40 {
            let esr = syndrome(ec, fsc);
            assert!(!(is_translation_fault(esr) && is_address_size_fault(esr)));
            assert_eq!(is_translation_fault(esr), classify_fault(esr) == FaultKind::Translation);
            assert_eq!(is_address_size_fault(esr), classify_fault(esr) == FaultKind::AddressSize);
            assert_eq!(classify_fault(esr) == FaultKind::Unknown, !is_abort_exception(esr));
        }
    }
}

#[test]
fn bits_outside_class_and_status_code_are_ignored() {
    let plain = syndrome(0x25, 0x06);
    let noisy = plain | (0x3f << 40) | (1 << 32) | (0x1ff << 6) | (1 << 24);
    assert_eq!(classify_fault(noisy), classify_fault(plain));
    assert_eq!(fault_name(noisy), fault_name(plain));
    assert_eq!(is_translation_fault(noisy), is_translation_fault(plain));
    assert_eq!(is_abort_exception(noisy), is_abort_exception(plain));
}

#[test]
fn zero_syndrome_is_unknown() {
    assert_eq!(esr_exception_class(0), 0);
    assert!(!is_abort_exception(0));
    assert_eq!(fault_name(0), b"unknown");
    assert_eq!(fault_name(u64::MAX), b"unknown");
    assert_eq!(fault_name(0x9600_003f), b"other abort");
    assert_eq!(FaultKind::Unknown.label(), "unknown");
    assert_eq!(FaultKind::TlbConflict.label(), "tlb conflict abort");
}
