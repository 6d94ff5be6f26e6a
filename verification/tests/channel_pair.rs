use ping_meter::channel::{ChannelError, DualChannel};
use std::time::Duration;

#[test]
fn messages_cross_between_ends() {
    let (mut a, mut b) = DualChannel::<u32>::new();
    assert_eq!(a.send(1), Ok(()));
    assert_eq!(a.send(2), Ok(()));
    assert_eq!(b.receive(), Ok(1));
    assert_eq!(b.try_receive(), Ok(2));
    assert_eq!(b.try_receive(), Err(ChannelError::Empty));
    assert_eq!(b.send(9), Ok(()));
    assert_eq!(a.receive_timeout(Duration::from_millis(50)), Ok(9));
    assert_eq!(a.receive_timeout(Duration::from_millis(10)), Err(ChannelError::Timeout));
}

#[test]
fn a_hung_up_end_hands_the_message_back() {
    let (mut a, b) = DualChannel::<String>::new();
    drop(b);
    assert_eq!(a.send("hello".to_string()), Err("hello".to_string()));
    assert_eq!(a.receive(), Err(ChannelError::Disconnected));
    assert_eq!(a.try_receive(), Err(ChannelError::Disconnected));
    assert_eq!(a.receive_timeout(Duration::from_millis(10)), Err(ChannelError::Disconnected));
}
