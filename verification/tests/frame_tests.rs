use tf_time_cache::tf_buffer::FrameId;

#[test]
fn valid_frame_name() {
    let frame = FrameId::new("map");
    assert!(frame.is_ok());
    assert_eq!("map", frame.unwrap().name);
}
