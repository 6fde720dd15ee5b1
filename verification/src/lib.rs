//! Boot-time logic of an AArch64 kernel stage: decoding of the exception
//! syndrome, the report and decision of the exception handler, the
//! translation-table descriptors and the tables of the identity and linear
//! maps, the translation-control register values, and a model of the
//! hardware table walk against which the maps are proved.

pub mod descriptor;
pub mod esr;
pub mod exception;
pub mod mmu;
pub mod walk;
