use speedy::capability::{capability_of, CapabilityDetector, GraphicsCapability};
use speedy::cell_renderer::{start_column_for, CellRenderer};
use speedy::config::{
    AudioConfig, Config, GutterConfig, TactileConfig, ThemeConfig, TimingConfig,
};
use speedy::epub;
use speedy::error::{check_file_content, SpeedyError};
use speedy::input::{
    document_kind, extract_plain_text, kind_of_extension, loaded_document,
    unsupported_format_lines, DocumentKind, LoadError,
};
use speedy::renderer::{anchor_out_of_bounds, RendererError, RsvpRenderer};
use speedy::event::AppEvent;
use speedy::repl::{command_notice, to_app_event, ReplCommand};
use speedy::simple_repl::{parse_repl_input, ReplCommand as Line};
use speedy::text::contains_text;
use speedy::transmit::encode_base64;
use speedy::viewport::{TerminalDimensions, Viewport, ViewportError};

#[test]
fn renderer_errors_as_text() {
    let cases = [
        (
            RendererError::InitializationFailed("a".to_string()),
            "Renderer initialization failed: a",
        ),
        (
            RendererError::RenderFailed("b".to_string()),
            "Word rendering failed: b",
        ),
        (
            RendererError::ClearFailed("c".to_string()),
            "Clear operation failed: c",
        ),
        (
            RendererError::CleanupFailed("d".to_string()),
            "Renderer cleanup failed: d",
        ),
        (
            RendererError::InvalidArguments("e".to_string()),
            "Invalid arguments: e",
        ),
    ];
    for (error, text) in cases {
        assert_eq!(error.to_string(), text);
    }
}

#[test]
fn anchor_error_names_the_word() {
    assert_eq!(
        anchor_out_of_bounds(12, "hi", 2),
        RendererError::InvalidArguments(
            "anchor_position 12 out of bounds for word 'hi' (length: 2)".to_string()
        )
    );
    assert_eq!(
        anchor_out_of_bounds(0, "", 0),
        RendererError::InvalidArguments(
            "anchor_position 0 out of bounds for word '' (length: 0)".to_string()
        )
    );
    assert_eq!(
        anchor_out_of_bounds(usize::MAX, "x", 1000),
        RendererError::InvalidArguments(format!(
            "anchor_position {} out of bounds for word 'x' (length: 1000)",
            usize::MAX
        ))
    );

    let mut renderer = CellRenderer::new();
    assert_eq!(
        renderer.render_word("hi", 5),
        Err(RendererError::InvalidArguments(
            "anchor_position 5 out of bounds for word 'hi' (length: 2)".to_string()
        ))
    );
    assert_eq!(renderer.get_current_word(), None);
    assert_eq!(
        renderer.calculate_start_column("", 0),
        Err(RendererError::InvalidArguments(
            "anchor_position 0 out of bounds for word '' (length: 0)".to_string()
        ))
    );
}

#[test]
fn start_column_never_leaves_the_screen() {
    assert_eq!(start_column_for(40, 0), 40);
    assert_eq!(start_column_for(40, 39), 1);
    assert_eq!(start_column_for(40, 40), 0);
    assert_eq!(start_column_for(40, 41), 0);
    assert_eq!(start_column_for(0, 0), 0);
    assert_eq!(start_column_for(u16::MAX, usize::MAX), 0);
    assert_eq!(start_column_for(u16::MAX, 1), u16::MAX - 1);

    let mut renderer = CellRenderer::new();
    renderer.update_terminal_size(2, 24);
    assert_eq!(renderer.calculate_start_column("\u{4f60}\u{597d}", 1), Ok(0));
}

#[test]
fn viewport_errors_as_text() {
    assert_eq!(
        ViewportError::IoError("x".to_string()).to_string(),
        "Viewport IO error: x"
    );
    assert_eq!(
        ViewportError::ParseError("y".to_string()).to_string(),
        "Viewport parse error: y"
    );
    assert_eq!(
        ViewportError::NotImplemented("z".to_string()).to_string(),
        "Viewport feature not implemented: z"
    );
    assert_eq!(
        ViewportError::NoDimensions.to_string(),
        "No terminal dimensions available"
    );
}

#[test]
fn load_errors_as_text() {
    assert_eq!(
        LoadError::PdfParse("a".to_string()).to_string(),
        "PDF parse error: a"
    );
    assert_eq!(
        LoadError::EpubParse("b".to_string()).to_string(),
        "EPUB parse error: b"
    );
    assert_eq!(
        LoadError::Clipboard("c".to_string()).to_string(),
        "Clipboard error: c"
    );
    assert_eq!(
        LoadError::FileNotFound("/d".to_string()).to_string(),
        "File not found: /d"
    );
    assert_eq!(
        LoadError::UnsupportedFormat("e".to_string()).to_string(),
        "Unsupported format: e"
    );
}

#[test]
fn file_errors_as_text() {
    assert_eq!(
        SpeedyError::IoError("denied".to_string()).to_string(),
        "I/O error: denied"
    );
    assert_eq!(
        SpeedyError::EmptyFile("a.txt".to_string()).to_string(),
        "File is empty: a.txt"
    );
    assert_eq!(
        SpeedyError::InvalidEncoding("b.txt".to_string()).to_string(),
        "Invalid file encoding: b.txt"
    );
}

#[test]
fn file_content_must_hold_more_than_white_space() {
    assert_eq!(
        check_file_content("a.txt", "hello world".to_string()),
        Ok("hello world".to_string())
    );
    assert_eq!(
        check_file_content("a.txt", "  x \n".to_string()),
        Ok("  x \n".to_string())
    );
    assert_eq!(
        check_file_content("a.txt", String::new()),
        Err(SpeedyError::EmptyFile("a.txt".to_string()))
    );
    assert_eq!(
        check_file_content("b.txt", " \n\t\u{a0} ".to_string()),
        Err(SpeedyError::EmptyFile("b.txt".to_string()))
    );
}

#[test]
fn viewport_falls_back_while_the_geometry_is_unknown() {
    let fallback = TerminalDimensions::new(800, 600, 80, 24);
    let mut viewport = Viewport::default();
    assert_eq!(viewport.dimensions_or(fallback), fallback);
    let known = TerminalDimensions::new(1920, 1080, 100, 30);
    viewport.set_dimensions(known);
    assert_eq!(viewport.dimensions_or(fallback), known);
}

#[test]
fn cell_conversion_rounds_down_and_saturates() {
    let dims = TerminalDimensions::new(1000, 700, 3, 7);
    assert_eq!(dims.cell_size, (21333, 6400));
    assert_eq!(dims.cell_to_pixel(1, 1), (333, 100));
    assert_eq!(dims.cell_to_pixel(2, 6), (666, 600));
    assert_eq!(dims.cell_to_pixel(3, 7), (1000, 700));
    assert_eq!(dims.rect_to_pixel(1, 2, 1, 3), (333, 200, 333, 300));

    let none = TerminalDimensions::new(1920, 1080, 0, 0);
    assert_eq!(none.cell_to_pixel(5, 5), (0, 0));
    assert_eq!(none.rect_to_pixel(1, 2, 3, 4), (0, 0, 0, 0));

    let huge = TerminalDimensions::new(u32::MAX, u32::MAX, 1, 1);
    assert_eq!(huge.cell_to_pixel(2, 0), (u32::MAX, 0));
    assert_eq!(huge.cell_to_pixel(1, 1), (u32::MAX, u32::MAX));
}

#[test]
fn capability_ignores_the_case_of_letters() {
    let detect = |term: Option<&str>, program: Option<&str>| {
        CapabilityDetector::with_environment(
            term.map(|t| t.to_string()),
            program.map(|p| p.to_string()),
        )
        .detect()
    };
    assert_eq!(detect(Some("XTERM-KITTY"), None), GraphicsCapability::Kitty);
    assert_eq!(detect(Some("xterm-kitty"), None), GraphicsCapability::Kitty);
    assert_eq!(detect(Some("Konsole-256color"), None), GraphicsCapability::Kitty);
    assert_eq!(detect(Some("xterm-256color"), None), GraphicsCapability::Unsupported);
    assert_eq!(
        detect(Some("xterm-256color"), Some("Kitty")),
        GraphicsCapability::Kitty
    );
    assert_eq!(
        detect(Some("xterm"), Some("Konsole")),
        GraphicsCapability::Unsupported
    );
    assert_eq!(detect(None, Some("iTerm.app")), GraphicsCapability::Unsupported);
    assert_eq!(detect(None, None), GraphicsCapability::Unsupported);
    assert_eq!(detect(Some(""), Some("")), GraphicsCapability::Unsupported);
    assert_eq!(CapabilityDetector::new().detect(), GraphicsCapability::Unsupported);
}

#[test]
fn capability_of_lower_case_names() {
    assert_eq!(capability_of(Some("kitty"), None), Some(GraphicsCapability::Kitty));
    assert_eq!(capability_of(Some("KITTY"), None), None);
    assert_eq!(capability_of(None, Some("my-kitty-fork")), Some(GraphicsCapability::Kitty));
    assert_eq!(capability_of(Some("kitt"), Some("konsole")), None);
}

#[test]
fn text_search() {
    assert!(contains_text("xterm-kitty", "kitty"));
    assert!(contains_text("kitty", "kitty"));
    assert!(contains_text("anything", ""));
    assert!(contains_text("", ""));
    assert!(!contains_text("", "k"));
    assert!(!contains_text("kitt", "kitty"));
    assert!(!contains_text("kit ty", "kitty"));
    assert!(contains_text("kkitty", "kitty"));
    assert!(contains_text("\u{e9}t\u{e9}", "t\u{e9}"));
}

#[test]
fn document_kinds() {
    assert_eq!(document_kind(Some("pdf")), DocumentKind::Pdf);
    assert_eq!(document_kind(Some("PDF")), DocumentKind::Pdf);
    assert_eq!(document_kind(Some("Epub")), DocumentKind::Epub);
    assert_eq!(document_kind(Some("txt")), DocumentKind::Unsupported);
    assert_eq!(document_kind(Some("")), DocumentKind::Unsupported);
    assert_eq!(document_kind(None), DocumentKind::Unsupported);
    assert_eq!(kind_of_extension(Some("PDF")), DocumentKind::Unsupported);
    assert_eq!(kind_of_extension(Some("epub")), DocumentKind::Epub);
    assert_eq!(
        unsupported_format_lines("notes.txt"),
        vec![
            "Unsupported format: notes.txt".to_string(),
            "Supported formats: .pdf, .epub".to_string(),
            "For clipboard, use @@ command".to_string(),
        ]
    );
}

#[test]
fn plain_text_of_marked_up_text() {
    assert_eq!(
        extract_plain_text("<html><body><p>Hello World</p></body></html>"),
        "Hello World"
    );
    assert_eq!(
        extract_plain_text("<h1> Title </h1>\n\n  <p>First\tline </p>\r\n<p></p>\n<p>Second</p>\n"),
        "Title\nFirst\tline\nSecond"
    );
    assert_eq!(extract_plain_text(""), "");
    assert_eq!(extract_plain_text("<p>"), "");
    assert_eq!(extract_plain_text(" \n \n"), "");
    assert_eq!(extract_plain_text("a < b > c"), "a  c");
    assert_eq!(extract_plain_text("1 > 0"), "1  0");
    assert_eq!(extract_plain_text("open <tag never closed"), "open");
    assert_eq!(extract_plain_text("<a\nhref='x'>link</a>"), "link");
}

#[test]
fn book_from_chapters() {
    let chapters = vec![
        "<h1>One</h1>\n<p>First chapter.</p>".to_string(),
        String::new(),
        "<p>Second chapter.</p>".to_string(),
    ];
    let document = epub::load("/books/a.epub", &chapters).unwrap();
    assert_eq!(document.source, "epub:/books/a.epub");
    let texts: Vec<&str> = document.tokens.iter().map(|t| t.text.as_str()).collect();
    assert_eq!(
        texts,
        vec!["One", "", "First", "chapter", "", "", "Second", "chapter"]
    );
    assert!(document.tokens[6].is_sentence_start);
}

#[test]
fn book_without_text_is_an_error() {
    assert_eq!(
        epub::load("a.epub", &Vec::new()).err(),
        Some(LoadError::EpubParse("No chapters found in EPUB".to_string()))
    );
    assert_eq!(
        epub::load("a.epub", &vec![String::new(), "<p> </p>".to_string()]).err(),
        Some(LoadError::EpubParse(
            "No extractable text content found in EPUB".to_string()
        ))
    );
    let only_separator = epub::load("a.epub", &vec!["<p>x</p>".to_string(), "<br>".to_string()]);
    let document = only_separator.unwrap();
    let texts: Vec<&str> = document.tokens.iter().map(|t| t.text.as_str()).collect();
    assert_eq!(texts, vec!["x", ""]);
}

#[test]
fn loaded_document_holds_the_tokens_of_the_text() {
    let document = loaded_document("Hello, world!", "clipboard".to_string());
    assert_eq!(document.source, "clipboard");
    assert_eq!(document.tokens.len(), 2);
    assert_eq!(document.tokens[1].punctuation, vec!['!']);
}

#[test]
fn prompt_notices() {
    assert_eq!(
        command_notice(&ReplCommand::LoadClipboard),
        vec![
            "Clipboard input not yet supported.".to_string(),
            "Type :q to quit or :h for help.".to_string(),
        ]
    );
    assert_eq!(
        command_notice(&ReplCommand::Unknown("wat".to_string())),
        vec!["Unknown command: wat".to_string()]
    );
    assert!(command_notice(&ReplCommand::Quit).is_empty());
    assert!(command_notice(&ReplCommand::Help).is_empty());
    assert!(command_notice(&ReplCommand::LoadFile("a".to_string())).is_empty());
}

#[test]
fn first_prompt_takes_other_lines_as_files() {
    assert_eq!(parse_repl_input("  book.txt "), Line::LoadFile("book.txt".to_string()));
    assert_eq!(parse_repl_input("@"), Line::LoadFile("@".to_string()));
    assert_eq!(parse_repl_input("@@anything"), Line::LoadClipboard);
    assert_eq!(parse_repl_input("@ a b"), Line::LoadFile(" a b".to_string()));
    assert_eq!(parse_repl_input(":quit"), Line::Quit);
    assert_eq!(parse_repl_input(":help"), Line::Help);
    assert_eq!(parse_repl_input(":x"), Line::LoadFile(":x".to_string()));
    assert_eq!(parse_repl_input(""), Line::LoadFile(String::new()));
}

#[test]
fn base64_of_known_bytes() {
    assert_eq!(encode_base64(b""), Some(String::new()));
    assert_eq!(encode_base64(b"f"), Some("Zg==".to_string()));
    assert_eq!(encode_base64(b"fo"), Some("Zm8=".to_string()));
    assert_eq!(encode_base64(b"foo"), Some("Zm9v".to_string()));
    assert_eq!(encode_base64(b"test"), Some("dGVzdA==".to_string()));
    assert_eq!(encode_base64(&[0xfb, 0xff]), Some("+/8=".to_string()));
}

#[test]
fn default_settings() {
    let timing = TimingConfig::default();
    assert_eq!(timing.wpm, 300);
    assert_eq!((timing.min_wpm, timing.max_wpm), (50, 1000));
    assert_eq!(timing.long_word_threshold, 10);
    assert_eq!(timing.long_word_penalty as f64 / 100.0, 1.15);
    assert_eq!(timing.period_multiplier as f64 / 100.0, 3.0);
    assert_eq!(timing.comma_multiplier as f64 / 100.0, 1.5);
    assert_eq!(timing.question_multiplier as f64 / 100.0, 3.0);
    assert_eq!(timing.exclamation_multiplier as f64 / 100.0, 3.0);
    assert_eq!(timing.newline_multiplier as f64 / 100.0, 4.0);

    let theme = ThemeConfig::default();
    assert_eq!(theme.background_color, "#1A1B26");
    assert_eq!(theme.text_color, "#A9B1D6");
    assert_eq!(theme.anchor_color, "#F7768E");

    let gutter = GutterConfig::default();
    assert_eq!((gutter.words_before, gutter.words_after), (3, 3));
    assert_eq!(gutter.reading_opacity_percent, 20);
    assert_eq!(gutter.paused_opacity_percent, 100);
    assert_eq!(gutter.opacity_levels, vec![100, 80, 60, 40]);

    let audio = AudioConfig::default();
    assert_eq!(audio.thump_frequency_hz, 100);
    assert_eq!(audio.thump_frequency_range, (80, 120));
    assert_eq!(audio.speed_glide_range_hz, (440, 880));

    let tactile = TactileConfig::default();
    assert_eq!(tactile.throttle_percent, 50);
    assert_eq!(tactile.ramp_up_seconds, 5);
    assert_eq!((tactile.ramp_start_percent, tactile.ramp_end_percent), (70, 100));

    let config = Config::default();
    assert_eq!(config.timing, timing);
    assert_eq!(config.theme, theme);
    assert_eq!(config.gutter, gutter);
    assert_eq!(config.audio, audio);
    assert_eq!(config.tactile, tactile);
}

#[test]
fn prompt_lines_as_requests() {
    assert_eq!(to_app_event(":q"), AppEvent::Quit);
    assert_eq!(to_app_event(" :help "), AppEvent::Help);
    assert_eq!(
        to_app_event("@ notes.pdf"),
        AppEvent::LoadFile("notes.pdf".to_string())
    );
    assert_eq!(to_app_event("@@"), AppEvent::Idle);
    assert_eq!(to_app_event("what"), AppEvent::Idle);
    assert_eq!(to_app_event(""), AppEvent::Idle);
}
