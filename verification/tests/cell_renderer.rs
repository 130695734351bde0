use speedy::cell_renderer::CellRenderer;
use speedy::renderer::RsvpRenderer;

#[test]
fn test_cell_renderer_creation() {
    let renderer = CellRenderer::new();
    assert_eq!(renderer.terminal_size, (80, 24));
    assert!(renderer.current_word_state.is_none());
}

#[test]
fn test_update_terminal_size() {
    let mut renderer = CellRenderer::new();
    renderer.update_terminal_size(120, 40);
    assert_eq!(renderer.terminal_size, (120, 40));
}

#[test]
fn test_supports_subpixel_ovp_returns_false() {
    let renderer = CellRenderer::new();
    assert!(!renderer.supports_subpixel_ovp());
}

#[test]
fn test_initialize_succeeds() {
    let mut renderer = CellRenderer::new();
    assert!(renderer.initialize().is_ok());
}

#[test]
fn test_render_word_stores_word_and_anchor() {
    let mut renderer = CellRenderer::new();
    renderer.initialize().unwrap();

    renderer.render_word("hello", 2).unwrap();
    assert_eq!(renderer.get_current_word(), Some("hello"));
    assert_eq!(renderer.get_current_word_state(), Some(("hello", 2)));
}

#[test]
fn test_clear_removes_word() {
    let mut renderer = CellRenderer::new();
    renderer.initialize().unwrap();
    renderer.render_word("hello", 0).unwrap();

    renderer.clear().unwrap();
    assert!(renderer.get_current_word().is_none());
    assert!(renderer.get_current_word_state().is_none());
}

#[test]
fn test_cleanup_removes_word() {
    let mut renderer = CellRenderer::new();
    renderer.initialize().unwrap();
    renderer.render_word("hello", 0).unwrap();

    renderer.cleanup().unwrap();
    assert!(renderer.get_current_word().is_none());
    assert!(renderer.get_current_word_state().is_none());
}

#[test]
fn cell_renderer_test_render_word_validates_anchor_position() {
    let mut renderer = CellRenderer::new();
    renderer.initialize().unwrap();

    assert!(renderer.render_word("hello", 0).is_ok());
    assert!(renderer.render_word("hello", 4).is_ok());

    let result = renderer.render_word("hi", 5);
    assert!(result.is_err());
}

#[test]
fn test_calculate_start_column_basic() {
    let renderer = CellRenderer::new();
    assert_eq!(renderer.calculate_start_column("hello", 2).unwrap(), 38);
}

#[test]
fn test_calculate_start_column_single_char() {
    let renderer = CellRenderer::new();
    assert_eq!(renderer.calculate_start_column("a", 0).unwrap(), 40);
}

#[test]
fn test_calculate_start_column_out_of_bounds() {
    let renderer = CellRenderer::new();
    let result = renderer.calculate_start_column("hi", 5);
    assert!(result.is_err());
}

#[test]
fn test_calculate_start_column_with_cjk() {
    let renderer = CellRenderer::new();
    assert_eq!(renderer.calculate_start_column("你好", 0).unwrap(), 40);

    assert_eq!(renderer.calculate_start_column("你好", 1).unwrap(), 38);
}

#[test]
fn test_calculate_start_column_with_emoji() {
    let renderer = CellRenderer::new();
    assert_eq!(renderer.calculate_start_column("hi😊", 2).unwrap(), 38);
}

#[test]
fn test_unicode_width_emoji_handling() {
    let mut renderer = CellRenderer::new();
    renderer.initialize().unwrap();

    assert!(renderer.render_word("hi😊", 0).is_ok());
    assert_eq!(renderer.get_current_word(), Some("hi😊"));
    assert_eq!(renderer.get_current_word_state(), Some(("hi😊", 0)));

    assert!(renderer.render_word("hi😊", 2).is_ok());
    assert_eq!(renderer.get_current_word_state(), Some(("hi😊", 2)));
}

#[test]
fn test_unicode_width_cjk_handling() {
    let mut renderer = CellRenderer::new();
    renderer.initialize().unwrap();

    assert!(renderer.render_word("你好", 1).is_ok());
    assert_eq!(renderer.get_current_word(), Some("你好"));
    assert_eq!(renderer.get_current_word_state(), Some(("你好", 1)));
}

#[test]
fn test_render_word_rejects_invalid_anchor_unicode() {
    let mut renderer = CellRenderer::new();
    renderer.initialize().unwrap();

    let result = renderer.render_word("hi😊", 5);
    assert!(result.is_err());
}

#[test]
fn test_narrow_terminal_handling() {
    let mut renderer = CellRenderer::new();
    renderer.update_terminal_size(10, 24);

    assert!(renderer.render_word("hello", 2).is_ok());

    let start_col = renderer.calculate_start_column("hello", 2).unwrap();
    assert_eq!(start_col, 3);
}

#[test]
fn test_wide_terminal_handling() {
    let mut renderer = CellRenderer::new();
    renderer.update_terminal_size(200, 60);

    let start_col = renderer.calculate_start_column("test", 1).unwrap();
    assert_eq!(start_col, 99);
}
