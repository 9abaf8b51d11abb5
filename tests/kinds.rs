use embedded_can::ErrorKind;
use socketcan::can_error::CanError;
use socketcan::composite::{CanSocketOpenError, Error};
use socketcan::construction::ConstructionError;
use socketcan::controller::ControllerProblem;
use socketcan::ctrl_info::ControllerSpecificErrorInformation;
use socketcan::failure::CanErrorDecodingFailure;

#[test]
fn kind_of_bus_errors() {
    assert_eq!(
        CanError::ControllerProblem(ControllerProblem::ReceiveBufferOverflow).kind(),
        ErrorKind::Overrun
    );
    assert_eq!(
        CanError::ControllerProblem(ControllerProblem::TransmitBufferOverflow).kind(),
        ErrorKind::Overrun
    );
    assert_eq!(CanError::NoAck.kind(), ErrorKind::Acknowledge);
    assert_eq!(CanError::ControllerProblem(ControllerProblem::Active).kind(), ErrorKind::Other);
    assert_eq!(CanError::BusOff.kind(), ErrorKind::Other);
    assert_eq!(CanError::LostArbitration(3).kind(), ErrorKind::Other);
    assert_eq!(CanError::Unknown(0x9999).kind(), ErrorKind::Other);
    assert_eq!(
        CanError::DecodingFailure(CanErrorDecodingFailure::InvalidLocation).kind(),
        ErrorKind::Other
    );
}

#[test]
fn kind_of_composite_errors() {
    assert_eq!(Error::from(CanError::NoAck).kind(), ErrorKind::Acknowledge);
    assert_eq!(
        Error::from(CanError::ControllerProblem(ControllerProblem::ReceiveBufferOverflow)).kind(),
        ErrorKind::Overrun
    );
    assert_eq!(Error::from(nix::errno::Errno::ENODEV).kind(), ErrorKind::Other);
    let io = std::io::Error::new(std::io::ErrorKind::Other, "boom");
    assert_eq!(Error::from(io).kind(), ErrorKind::Other);
    let open = CanSocketOpenError::from(nix::errno::Errno::ENODEV);
    assert_eq!(Error::from(open).kind(), ErrorKind::Other);
    assert_eq!(Error::from(ControllerProblem::Active).kind(), ErrorKind::Other);
}

#[test]
fn composite_conversions_keep_the_value() {
    assert!(matches!(Error::from(CanError::BusOff), Error::Can(CanError::BusOff)));
    assert!(matches!(
        Error::from(ControllerProblem::Active),
        Error::Controller(ControllerProblem::Active)
    ));
    assert!(matches!(
        Error::from(nix::errno::Errno::ENODEV),
        Error::Nix(nix::errno::Errno::ENODEV)
    ));
    let io = std::io::Error::new(std::io::ErrorKind::NotFound, "gone");
    match Error::from(io) {
        Error::Io(e) => assert_eq!(e.kind(), std::io::ErrorKind::NotFound),
        _ => panic!("not an I/O error"),
    }
    assert!(matches!(
        CanSocketOpenError::from(nix::errno::Errno::ENODEV),
        CanSocketOpenError::LookupError(nix::errno::Errno::ENODEV)
    ));
    let io = std::io::Error::new(std::io::ErrorKind::NotFound, "gone");
    assert!(matches!(CanSocketOpenError::from(io), CanSocketOpenError::IOError(_)));
}

#[test]
fn construction_error_equality() {
    assert_eq!(ConstructionError::WrongFrameType, ConstructionError::WrongFrameType);
    assert_eq!(ConstructionError::IDTooLarge, ConstructionError::IDTooLarge);
    assert_eq!(ConstructionError::TooMuchData, ConstructionError::TooMuchData);
    assert_ne!(ConstructionError::WrongFrameType, ConstructionError::IDTooLarge);
    assert_ne!(ConstructionError::IDTooLarge, ConstructionError::TooMuchData);
    assert_ne!(ConstructionError::TooMuchData, ConstructionError::WrongFrameType);
}

#[test]
fn controller_specific_information() {
    let data: [u8; 8] = [1, 2, 3, 4, 5, 6, 7, 8];
    assert_eq!(data[..].get_ctrl_err(), Some(&[6u8, 7, 8][..]));
    let short: [u8; 5] = [1, 2, 3, 4, 5];
    assert_eq!(short[..].get_ctrl_err(), None);
    let empty: [u8; 0] = [];
    assert_eq!(empty[..].get_ctrl_err(), None);
}
