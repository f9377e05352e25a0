use std::io::{Error, ErrorKind};

use enttec::commands::{GetParameters, GetParametersReply, GetSerialNumber, GetSerialNumberReply};
use enttec::error::EnttecError;
use enttec::widget::{begin, Receiving};

fn started() -> Receiving<GetSerialNumberReply> {
    let (frame, sending) = begin::<GetSerialNumber, GetSerialNumberReply>(GetSerialNumber);
    sending.written(Ok(frame.len())).ok().unwrap()
}

#[test]
fn begin_hands_out_the_encoded_request() {
    let (frame, _sending) = begin::<GetParameters, GetParametersReply>(GetParameters { param_size: 0 });
    assert_eq!(&frame[..], &[0x7E, 0x03, 0x02, 0x00, 0x00, 0x00, 0xE7][..]);
}

#[test]
fn whole_write_leads_to_a_read_of_the_reply_frame() {
    let (frame, sending) = begin::<GetParameters, GetParametersReply>(GetParameters { param_size: 0 });
    assert_eq!(frame.len(), 7);
    let receiving = sending.written(Ok(7)).ok().unwrap();
    assert_eq!(receiving.reply_len(), 10);
    assert_eq!(started().reply_len(), 9);
}

#[test]
fn short_write_is_a_length_error() {
    for count in [0usize, 1, 6] {
        let (_frame, sending) = begin::<GetParameters, GetParametersReply>(GetParameters { param_size: 0 });
        assert!(matches!(sending.written(Ok(count)), Err(EnttecError::Length)));
    }
}

#[test]
fn long_write_count_is_a_length_error() {
    let (_frame, sending) = begin::<GetParameters, GetParametersReply>(GetParameters { param_size: 0 });
    assert!(matches!(sending.written(Ok(8)), Err(EnttecError::Length)));
}

#[test]
fn failed_write_keeps_the_cause() {
    let (_frame, sending) = begin::<GetSerialNumber, GetSerialNumberReply>(GetSerialNumber);
    let cause = Error::new(ErrorKind::BrokenPipe, "port closed");
    match sending.written(Err(cause)) {
        Err(EnttecError::Serial(e)) => {
            assert_eq!(e.kind(), ErrorKind::BrokenPipe);
            assert_eq!(format!("{}", e), "port closed");
        }
        _ => panic!("expected the transport's error"),
    }
}

#[test]
fn failed_read_keeps_the_cause_and_decodes_nothing() {
    let cause = Error::new(ErrorKind::UnexpectedEof, "failed to fill whole buffer");
    match started().received(Err(cause)) {
        Err(EnttecError::Serial(e)) => assert_eq!(e.kind(), ErrorKind::UnexpectedEof),
        _ => panic!("expected the transport's error"),
    }
}

#[test]
fn timed_out_read_is_a_transport_error() {
    let cause = Error::new(ErrorKind::TimedOut, "no reply");
    assert!(matches!(started().received(Err(cause)), Err(EnttecError::Serial(_))));
}

#[test]
fn full_read_is_decoded() {
    let data = vec![0x7E, 0x0A, 0x04, 0x00, 0x01, 0x02, 0x03, 0x04, 0xE7];
    let reply = started().received(Ok(data)).unwrap();
    assert_eq!(reply, GetSerialNumberReply { serial: [1, 2, 3, 4] });
}

#[test]
fn decode_errors_pass_through() {
    let wrong_end = vec![0x7E, 0x0A, 0x04, 0x00, 0x01, 0x02, 0x03, 0x04, 0xE8];
    assert!(matches!(started().received(Ok(wrong_end)), Err(EnttecError::Frame)));
    let wrong_label = vec![0x7E, 0x03, 0x04, 0x00, 0x01, 0x02, 0x03, 0x04, 0xE7];
    assert!(matches!(started().received(Ok(wrong_label)), Err(EnttecError::Label)));
    let wrong_length = vec![0x7E, 0x0A, 0x04, 0x00, 0x01, 0x02, 0xE7];
    assert!(matches!(started().received(Ok(wrong_length)), Err(EnttecError::Length)));
}

#[test]
fn whole_exchange_for_parameters() {
    let (frame, sending) = begin::<GetParameters, GetParametersReply>(GetParameters { param_size: 0 });
    let receiving = sending.written(Ok(frame.len())).ok().unwrap();
    let mut data = vec![0u8; receiving.reply_len()];
    data.copy_from_slice(&[0x7E, 0x03, 0x05, 0x00, 0x2C, 0x01, 0x09, 0x01, 0x28, 0xE7]);
    let reply = receiving.received(Ok(data)).unwrap();
    assert_eq!(
        reply,
        GetParametersReply { firm_lsb: 0x2C, firm_msb: 0x01, dmx_break: 9, dmx_mab: 1, dmx_rate: 40 }
    );
}
