use fluffy_injector::icon::{bitmap_layout, swap_red_blue, IconImage};
use fluffy_injector::pipeline::{icon_message, BackgroundMessage};

#[test]
fn swap_turns_bgra_into_rgba() {
    let mut buf = vec![1u8, 2, 3, 4, 5, 6, 7, 8, 9];
    swap_red_blue(&mut buf);
    assert_eq!(buf, vec![3u8, 2, 1, 4, 7, 6, 5, 8, 9]);
}

#[test]
fn swap_twice_gives_back_the_buffer() {
    let original: Vec<u8> = (0..64u8).collect();
    let mut buf = original.clone();
    swap_red_blue(&mut buf);
    assert_ne!(buf, original);
    swap_red_blue(&mut buf);
    assert_eq!(buf, original);
}

#[test]
fn from_bgra_checks_length_and_swaps() {
    let img = IconImage::from_bgra(1, 2, vec![10, 20, 30, 40, 50, 60, 70, 80]).unwrap();
    assert_eq!(img.width(), 1);
    assert_eq!(img.height(), 2);
    assert_eq!(img.pixels(), &vec![30u8, 20, 10, 40, 70, 60, 50, 80]);
    assert!(IconImage::from_bgra(2, 2, vec![0; 15]).is_none());
    assert!(IconImage::from_rgba(0, 0, vec![]).is_some());
}

#[test]
fn bitmap_layout_takes_height_magnitude() {
    assert_eq!(bitmap_layout(16, -16), Some((16, 16, 1024)));
    assert_eq!(bitmap_layout(32, 32), Some((32, 32, 4096)));
    assert_eq!(bitmap_layout(-1, 16), None);
}

#[test]
fn icon_message_carries_the_request_pid() {
    let img = IconImage::from_rgba(1, 1, vec![1, 2, 3, 4]).unwrap();
    match icon_message(77, Some(img)) {
        Some(BackgroundMessage::Icon((pid, img))) => {
            assert_eq!(pid, 77);
            assert_eq!(img.pixels(), &vec![1u8, 2, 3, 4]);
        }
        _ => panic!("expected an icon message"),
    }
    assert!(icon_message(77, None).is_none());
}
