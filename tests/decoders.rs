use socketcan::controller::ControllerProblem;
use socketcan::failure::CanErrorDecodingFailure;
use socketcan::location::Location;
use socketcan::transceiver::TransceiverError;
use socketcan::violation_type::ViolationType;
use std::convert::TryFrom;

#[test]
fn controller_problem_total_over_bytes() {
    let valid: [u8; 8] = [0x00, 0x01, 0x02, 0x04, 0x08, 0x10, 0x20, 0x40];
    for b in 0..=255u8 {
        match ControllerProblem::try_from(b) {
            Ok(_) => assert!(valid.contains(&b), "byte {} decoded", b),
            Err(e) => {
                assert!(!valid.contains(&b), "byte {} rejected", b);
                assert_eq!(e, CanErrorDecodingFailure::InvalidControllerProblem);
            }
        }
    }
}

#[test]
fn controller_problem_codes() {
    assert_eq!(ControllerProblem::try_from(0x00), Ok(ControllerProblem::Unspecified));
    assert_eq!(ControllerProblem::try_from(0x01), Ok(ControllerProblem::ReceiveBufferOverflow));
    assert_eq!(ControllerProblem::try_from(0x02), Ok(ControllerProblem::TransmitBufferOverflow));
    assert_eq!(ControllerProblem::try_from(0x04), Ok(ControllerProblem::ReceiveErrorWarning));
    assert_eq!(ControllerProblem::try_from(0x08), Ok(ControllerProblem::TransmitErrorWarning));
    assert_eq!(ControllerProblem::try_from(0x10), Ok(ControllerProblem::ReceiveErrorPassive));
    assert_eq!(ControllerProblem::try_from(0x20), Ok(ControllerProblem::TransmitErrorPassive));
    assert_eq!(ControllerProblem::try_from(0x40), Ok(ControllerProblem::Active));
    assert_eq!(
        ControllerProblem::try_from(0x03),
        Err(CanErrorDecodingFailure::InvalidControllerProblem)
    );
}

#[test]
fn violation_type_total_over_bytes() {
    let valid: [u8; 9] = [0x00, 0x01, 0x02, 0x04, 0x08, 0x10, 0x20, 0x40, 0x80];
    for b in 0..=255u8 {
        match ViolationType::try_from(b) {
            Ok(_) => assert!(valid.contains(&b), "byte {} decoded", b),
            Err(e) => {
                assert!(!valid.contains(&b), "byte {} rejected", b);
                assert_eq!(e, CanErrorDecodingFailure::InvalidViolationType);
            }
        }
    }
}

#[test]
fn violation_type_codes() {
    assert_eq!(ViolationType::try_from(0x00), Ok(ViolationType::Unspecified));
    assert_eq!(ViolationType::try_from(0x01), Ok(ViolationType::SingleBitError));
    assert_eq!(ViolationType::try_from(0x02), Ok(ViolationType::FrameFormatError));
    assert_eq!(ViolationType::try_from(0x04), Ok(ViolationType::BitStuffingError));
    assert_eq!(ViolationType::try_from(0x08), Ok(ViolationType::UnableToSendDominantBit));
    assert_eq!(ViolationType::try_from(0x10), Ok(ViolationType::UnableToSendRecessiveBit));
    assert_eq!(ViolationType::try_from(0x20), Ok(ViolationType::BusOverload));
    assert_eq!(ViolationType::try_from(0x40), Ok(ViolationType::Active));
    assert_eq!(ViolationType::try_from(0x80), Ok(ViolationType::TransmissionError));
    assert_eq!(ViolationType::try_from(0x81), Err(CanErrorDecodingFailure::InvalidViolationType));
}

#[test]
fn location_total_over_bytes() {
    let table: [(u8, Location); 20] = [
        (0x00, Location::Unspecified),
        (0x03, Location::StartOfFrame),
        (0x02, Location::Id2821),
        (0x06, Location::Id2018),
        (0x04, Location::SubstituteRtr),
        (0x05, Location::IdentifierExtension),
        (0x07, Location::Id1713),
        (0x0F, Location::Id1205),
        (0x0E, Location::Id0400),
        (0x0C, Location::Rtr),
        (0x0D, Location::Reserved1),
        (0x09, Location::Reserved0),
        (0x0B, Location::DataLengthCode),
        (0x0A, Location::DataSection),
        (0x08, Location::CrcSequence),
        (0x18, Location::CrcDelimiter),
        (0x19, Location::AckSlot),
        (0x1B, Location::AckDelimiter),
        (0x1A, Location::EndOfFrame),
        (0x12, Location::Intermission),
    ];
    for b in 0..=255u8 {
        let expected = table.iter().find(|(code, _)| *code == b).map(|(_, loc)| *loc);
        match expected {
            Some(loc) => assert_eq!(Location::try_from(b), Ok(loc)),
            None => assert_eq!(Location::try_from(b), Err(CanErrorDecodingFailure::InvalidLocation)),
        }
    }
}

#[test]
fn transceiver_total_over_bytes() {
    let table: [(u8, TransceiverError); 10] = [
        (0x00, TransceiverError::Unspecified),
        (0x04, TransceiverError::CanHighNoWire),
        (0x05, TransceiverError::CanHighShortToBat),
        (0x06, TransceiverError::CanHighShortToVcc),
        (0x07, TransceiverError::CanHighShortToGnd),
        (0x40, TransceiverError::CanLowNoWire),
        (0x50, TransceiverError::CanLowShortToBat),
        (0x60, TransceiverError::CanLowShortToVcc),
        (0x70, TransceiverError::CanLowShortToGnd),
        (0x80, TransceiverError::CanLowShortToCanHigh),
    ];
    for b in 0..=255u8 {
        let expected = table.iter().find(|(code, _)| *code == b).map(|(_, t)| *t);
        match expected {
            Some(t) => assert_eq!(TransceiverError::try_from(b), Ok(t)),
            None => assert_eq!(
                TransceiverError::try_from(b),
                Err(CanErrorDecodingFailure::InvalidTransceiverError)
            ),
        }
    }
}
