use snake_sdk::get_arena_size;

#[test]
fn arena_size_is_width_then_height() {
    assert_eq!(get_arena_size(10, 10), (10, 10));
    assert_eq!(get_arena_size(32, 18), (32, 18));
    assert_eq!(get_arena_size(0, u32::MAX), (0, u32::MAX));
}
