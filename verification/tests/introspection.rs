use sig_introspect::errors::VerifyError;
use sig_introspect::instructions::{InstructionBatch, RawInstruction};

fn instruction(tag: u8) -> RawInstruction {
    RawInstruction { program_id: [tag; 32], data: vec![tag, tag] }
}

#[test]
fn empty_batch_has_no_instructions() {
    let batch = InstructionBatch { instructions: vec![] };
    assert_eq!(batch.len(), 0);
    assert!(matches!(batch.get(0), Err(VerifyError::InstructionIndexOutOfRange)));
    assert!(matches!(batch.get(7), Err(VerifyError::InstructionIndexOutOfRange)));
}

#[test]
fn singleton_batch_bounds() {
    let batch = InstructionBatch { instructions: vec![instruction(1)] };
    assert_eq!(batch.len(), 1);
    assert_eq!(batch.get(0).unwrap().program_id, [1u8; 32]);
    assert!(matches!(batch.get(1), Err(VerifyError::InstructionIndexOutOfRange)));
}

#[test]
fn longer_batch_returns_each_entry_and_rejects_past_the_end() {
    let batch = InstructionBatch {
        instructions: vec![instruction(1), instruction(2), instruction(3)],
    };
    assert_eq!(batch.len(), 3);
    for i in 0..3usize {
        let ix = batch.get(i).unwrap();
        assert_eq!(ix.program_id, [(i as u8) + 1; 32]);
        assert_eq!(ix.data, vec![(i as u8) + 1, (i as u8) + 1]);
    }
    assert!(matches!(batch.get(3), Err(VerifyError::InstructionIndexOutOfRange)));
    assert!(matches!(batch.get(usize::MAX), Err(VerifyError::InstructionIndexOutOfRange)));
}
