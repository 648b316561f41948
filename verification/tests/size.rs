//! Component-wise arithmetic on sizes, and the flushing layer's parts.

use dumo::backend::size::SizeExt;
use dumo::geometry::Size;
use dumo::wrapper::flush::FlushWrapper;
use dumo::wrapper::Wrapper;

#[test]
fn component_mul() {
    assert_eq!(Size::new(8, 16).checked_component_mul(Size::new(3, 2)), Some(Size::new(24, 32)));
    assert_eq!(Size::new(u32::MAX, 1).checked_component_mul(Size::new(2, 1)), None);
    assert_eq!(Size::new(1, u32::MAX).checked_component_mul(Size::new(1, 2)), None);
}

#[test]
fn component_div_ceil() {
    assert_eq!(
        Size::new(100, 50).checked_component_div_ceil(Size::new(8, 16)),
        Some(Size::new(13, 4))
    );
    assert_eq!(Size::new(0, 0).checked_component_div_ceil(Size::new(8, 16)), Some(Size::new(0, 0)));
    assert_eq!(Size::new(100, 50).checked_component_div_ceil(Size::new(0, 16)), None);
    assert_eq!(
        Size::new(u32::MAX, u32::MAX).checked_component_div_ceil(Size::new(2, 1)),
        Some(Size::new(u32::MAX / 2 + 1, u32::MAX))
    );
}

#[test]
fn component_next_multiple_of() {
    assert_eq!(
        Size::new(100, 50).checked_component_next_multiple_of(Size::new(8, 16)),
        Some(Size::new(104, 64))
    );
    assert_eq!(
        Size::new(96, 48).checked_component_next_multiple_of(Size::new(8, 16)),
        Some(Size::new(96, 48))
    );
    assert_eq!(Size::new(100, 50).checked_component_next_multiple_of(Size::new(8, 0)), None);
    assert_eq!(Size::new(u32::MAX, 1).checked_component_next_multiple_of(Size::new(2, 1)), None);
}

#[test]
fn flush_wrapper_hands_out_its_parts() {
    let mut wrapper = FlushWrapper::new(5u8, 7u16);
    {
        let (backend, flush_fn) = wrapper.parts_mut();
        *backend += 1;
        *flush_fn += 1;
    }
    assert_eq!(*wrapper.inner(), 6);
    *wrapper.inner_mut() += 1;
    assert_eq!(wrapper.into_inner(), 7);
}
