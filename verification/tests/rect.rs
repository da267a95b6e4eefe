use amulet::geom::Point;
use amulet::geom::Rect;
use amulet::geom::Size;
use amulet::geom::Vector;

#[test]
fn test_contains() {
    let rect = Rect::from_xywh(10, 20, 30, 5);
    assert!(rect.contains(Point::new(10, 20)));
    assert!(rect.contains(Point::new(11, 20)));
    assert!(rect.contains(Point::new(10, 21)));
    assert!(rect.contains(Point::new(39, 24)));
    assert!(!rect.contains(Point::new(9, 20)));
    assert!(!rect.contains(Point::new(10, 19)));
    assert!(!rect.contains(Point::new(40, 24)));
    assert!(!rect.contains(Point::new(39, 25)));
}

#[test]
fn test_clip() {
    let rect = Rect::from_xywh(10, 20, 30, 5);
    assert_eq!(Rect::from_xywh(12, 23, 28, 2), rect.clip(Vector::new(2, 3)));
    assert_eq!(Rect::from_xywh(10, 23, 28, 2), rect.clip(Vector::new(-2, 3)));
    assert_eq!(Rect::from_xywh(10, 20, 28, 2), rect.clip(Vector::new(-2, -3)));
    assert_eq!(Rect::from_xywh(12, 20, 28, 2), rect.clip(Vector::new(2, -3)));
}

#[test]
fn test_inflate() {
    let rect = Rect::from_xywh(10, 20, 30, 5);
    assert_eq!(Rect::from_xywh(8, 17, 34, 11), rect.inflate(2, 3));
    assert_eq!(Rect::from_xywh(12, 17, 26, 11), rect.inflate(-2, 3));
    assert_eq!(Rect::from_xywh(8, 23, 34, -1), rect.inflate(2, -3));
    assert_eq!(Rect::from_xywh(12, 23, 26, -1), rect.inflate(-2, -3));
}

#[test]
fn test_clip_without_overlap_is_empty() {
    let rect = Rect::from_xywh(10, 20, 30, 5);
    // The translation moves the rectangle entirely off itself: the result
    // denotes no region, never a negative extent.
    let clipped = rect.clip(Vector::new(30, 0));
    assert_eq!(0, clipped.size.width);
    assert!(clipped.size.height >= 0);
    let clipped = rect.clip(Vector::new(0, -5));
    assert_eq!(0, clipped.size.height);
    assert!(clipped.size.width >= 0);
    let far = rect.clip(Vector::new(1000, 1000));
    assert_eq!(0, far.size.width);
    assert_eq!(0, far.size.height);
}

#[test]
fn test_shrink_caps_extent() {
    let rect = Rect::from_xywh(10, 20, 30, 5);
    assert_eq!(Rect::from_xywh(10, 20, 12, 5), rect.shrink(Size::new(12, 40)));
    assert_eq!(Rect::from_xywh(10, 20, 30, 5), rect.shrink(Size::new(100, 100)));
    assert_eq!(Rect::from_xywh(10, 20, 0, 0), rect.shrink(Size::new(0, 0)));
    assert_eq!(rect.shrink(Size::new(12, 40)), rect.resize_clipped(Size::new(12, 40)));
}

#[test]
fn test_rect_builders() {
    let rect = Rect::from_size(Size::new(7, 9));
    assert_eq!(Rect::from_xywh(0, 0, 7, 9), rect);
    assert_eq!(Point::new(7, 9), rect.limit());
    assert_eq!(Rect::from_xywh(3, -2, 7, 9), rect.translate(Vector::new(3, -2)));
    assert_eq!(Rect::from_xywh(0, 0, 2, 1), rect.resize(Size::new(2, 1)));
    assert_eq!(Rect::new(Point::new(1, 2), Size::new(3, 4)), Rect::from_xywh(1, 2, 3, 4));
}

#[test]
fn test_size_operations() {
    assert_eq!(Size::new(0, 3), Size::new(-5, 3).fix());
    assert_eq!(Size::new(0, 0), Size::zero());
    assert_eq!(Size::new(2, 3), Size::new(2, 7).min(Size::new(9, 3)));
    assert_eq!(Size::new(9, 7), Size::new(2, 7).max(Size::new(9, 3)));
    assert_eq!(Vector::new(4, 5), Size::new(4, 5).as_vector());
}

#[test]
fn test_point_vector_conversions() {
    assert_eq!(Point::new(0, 0), Point::zero());
    assert_eq!(Vector::new(1, 2), Point::new(1, 2).as_vector());
    assert_eq!(Size::new(1, 2), Point::new(1, 2).as_size());
    assert_eq!(Point::new(3, 4), Vector::new(3, 4).as_point());
    assert_eq!(Vector::new(0, 0), Vector::zero());
}
