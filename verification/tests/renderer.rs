use speedy::renderer::{RendererError, RsvpRenderer};

struct TestRenderer;

impl RsvpRenderer for TestRenderer {
    fn initialize(&mut self) -> Result<(), RendererError> {
        Ok(())
    }

    fn render_word(&mut self, word: &str, anchor_position: usize) -> Result<(), RendererError> {
        if anchor_position >= word.chars().count() {
            return Err(RendererError::InvalidArguments(format!(
                "anchor_position {} out of bounds for word '{}'",
                anchor_position, word
            )));
        }
        Ok(())
    }

    fn clear(&mut self) -> Result<(), RendererError> {
        Ok(())
    }

    fn supports_subpixel_ovp(&self) -> bool {
        false
    }

    fn cleanup(&mut self) -> Result<(), RendererError> {
        Ok(())
    }
}

#[test]
fn test_trait_object_safety() {
    let _renderer: Box<dyn RsvpRenderer> = Box::new(TestRenderer);
}

#[test]
fn test_stub_implementation_compiles() {
    let mut renderer = TestRenderer;

    assert!(renderer.initialize().is_ok());
    assert!(renderer.render_word("hello", 1).is_ok());
    assert!(renderer.clear().is_ok());
    assert!(!renderer.supports_subpixel_ovp());
    assert!(renderer.cleanup().is_ok());
}

#[test]
fn renderer_test_render_word_validates_anchor_position() {
    let mut renderer = TestRenderer;

    assert!(renderer.render_word("hello", 0).is_ok());
    assert!(renderer.render_word("hello", 4).is_ok());

    let result = renderer.render_word("hi", 5);
    assert!(result.is_err());
    match result {
        Err(RendererError::InvalidArguments(_)) => (),
        _ => panic!("Expected InvalidArguments error"),
    }
}

#[test]
fn test_error_display_messages() {
    let err = RendererError::InitializationFailed("test".to_string());
    assert!(err.to_string().contains("initialization failed"));

    let err = RendererError::RenderFailed("test".to_string());
    assert!(err.to_string().contains("rendering failed"));

    let err = RendererError::InvalidArguments("test".to_string());
    assert!(err.to_string().contains("Invalid arguments"));
}
