use audiovibe_core::document::{DocumentError, DocumentProcessor};
use audiovibe_core::import::{
    detect_author_from_title, extract_archive_identifier, extract_chapter_chunk_numbers,
    parse_runtime_to_seconds,
};
use audiovibe_core::scanner::FileSystemScanner;
use audiovibe_core::services::ServiceManager;

#[test]
fn test_supported_extensions() {
    let scanner = FileSystemScanner::new();

    assert!(scanner.is_supported_audio_file("test.mp3"));
    assert!(scanner.is_supported_audio_file("test.M4A"));
    assert!(!scanner.is_supported_audio_file("test.txt"));
    assert!(!scanner.is_supported_audio_file("test.pdf"));
}

#[test]
fn test_supported_extensions_edge_cases() {
    let scanner = FileSystemScanner::new();
    assert!(scanner.is_supported_audio_file("/library/book one/01 - intro.M4B"));
    assert!(!scanner.is_supported_audio_file("noextension"));
    assert!(!scanner.is_supported_audio_file(".mp3"));
    assert!(!scanner.is_supported_audio_file("dir.mp3/file"));
}

#[test]
fn test_service_manager_creation() {
    let manager = ServiceManager::new();
    assert!(!manager.ai_service_enabled);
    assert!(!manager.sync_service_enabled);
}

#[test]
fn test_ai_service_initialization() {
    let mut manager = ServiceManager::new();
    assert!(manager.initialize_ai_service().is_ok());
    assert!(manager.ai_service_enabled);
}

#[test]
fn test_sync_service_initialization() {
    let mut manager = ServiceManager::new();
    assert!(manager.initialize_sync_service().is_ok());
    assert!(manager.sync_service_enabled);
}

#[test]
fn test_parse_runtime() {
    assert_eq!(parse_runtime_to_seconds("1:23:45"), Some(5025));
    assert_eq!(parse_runtime_to_seconds("2:05"), Some(125));
    assert_eq!(parse_runtime_to_seconds("90"), Some(5400));
    assert_eq!(parse_runtime_to_seconds(""), None);
    assert_eq!(parse_runtime_to_seconds("1:2:3:4"), None);
    assert_eq!(parse_runtime_to_seconds("abc"), None);
    assert_eq!(parse_runtime_to_seconds("1:xx"), None);
}

#[test]
fn test_parse_runtime_signed_and_wide() {
    // parts are signed integers, as integer parsing reads them
    assert_eq!(parse_runtime_to_seconds("-1"), Some(-60));
    assert_eq!(parse_runtime_to_seconds("+5"), Some(300));
    assert_eq!(parse_runtime_to_seconds("1:-2"), Some(58));
    // a 19-digit part within the i64 range is accepted
    assert_eq!(
        parse_runtime_to_seconds("0:0:4000000000000000000"),
        Some(4_000_000_000_000_000_000)
    );
    // a part beyond the i64 range is not
    assert_eq!(parse_runtime_to_seconds("99999999999999999999"), None);
    // a total beyond the i64 range is not
    assert_eq!(parse_runtime_to_seconds("9223372036854775807:0:0"), None);
    // a bare sign is not a number
    assert_eq!(parse_runtime_to_seconds("-"), None);
}

#[test]
fn test_chapter_chunk_numbers() {
    assert_eq!(extract_chapter_chunk_numbers("chapter_1_chunk_2.wav"), Some((1, 2)));
    assert_eq!(extract_chapter_chunk_numbers("chapter_12_chunk_34.wav"), Some((12, 34)));
    assert_eq!(extract_chapter_chunk_numbers("chunk_3.wav"), Some((1, 3)));
    assert_eq!(extract_chapter_chunk_numbers("chapter_1_chunk_2.mp3"), None);
    assert_eq!(extract_chapter_chunk_numbers("something.wav"), None);
    assert_eq!(extract_chapter_chunk_numbers("chapter_x_chunk_2.wav"), None);
}

#[test]
fn test_chapter_chunk_numbers_signed_and_wide() {
    // the numbers are signed integers, as integer parsing reads them
    assert_eq!(extract_chapter_chunk_numbers("chunk_-1.wav"), Some((1, -1)));
    assert_eq!(
        extract_chapter_chunk_numbers("chapter_2147483647_chunk_1.wav"),
        Some((2147483647, 1))
    );
    // beyond the i32 range the parse fails, so no numbers are read
    assert_eq!(extract_chapter_chunk_numbers("chapter_2147483648_chunk_1.wav"), None);
    assert_eq!(extract_chapter_chunk_numbers("chunk_+7.wav"), Some((1, 7)));
}

#[test]
fn test_archive_identifier() {
    let url = "https://archive.org/compress/picturedoriangr_1608_librivox/formats=64KBPS%20MP3&file=/picturedoriangr_1608_librivox.zip";
    assert_eq!(
        extract_archive_identifier(url).as_deref(),
        Some("picturedoriangr_1608_librivox")
    );
    assert_eq!(
        extract_archive_identifier("https://archive.org/download?file=/abc.zip").as_deref(),
        Some("abc")
    );
    assert_eq!(extract_archive_identifier("https://example.org/nothing"), None);
}

#[test]
fn test_detect_author() {
    assert_eq!(
        detect_author_from_title("The Picture of Dorian Gray").as_deref(),
        Some("wilde")
    );
    assert_eq!(detect_author_from_title("Pride and Prejudice").as_deref(), Some("austen"));
    assert_eq!(
        detect_author_from_title("Alice's Adventures in Wonderland").as_deref(),
        Some("carroll")
    );
    assert_eq!(detect_author_from_title("A Christmas Carol").as_deref(), Some("dickens"));
    assert_eq!(detect_author_from_title("HAMLET").as_deref(), Some("shakespeare"));
    assert_eq!(detect_author_from_title("War and Peace").as_deref(), Some("tolstoy"));
    assert_eq!(detect_author_from_title("Tom Sawyer").as_deref(), Some("twain"));
    assert_eq!(detect_author_from_title("Sherlock Holmes").as_deref(), Some("doyle"));
    assert_eq!(detect_author_from_title("Moby Dick").as_deref(), Some("melville"));
    assert_eq!(detect_author_from_title("Frankenstein").as_deref(), Some("shelley"));
    assert_eq!(detect_author_from_title("Dracula").as_deref(), Some("stoker"));
    assert_eq!(detect_author_from_title("An Unknown Work"), None);
}

#[test]
fn test_chapter_title_from_filename() {
    let scanner = FileSystemScanner::new();
    assert_eq!(
        scanner.extract_chapter_title_from_filename("Chapter 12 - The Door.mp3", 1),
        "Chapter 12"
    );
    assert_eq!(scanner.extract_chapter_title_from_filename("03 Something.mp3", 3), "Chapter 03");
    assert_eq!(scanner.extract_chapter_title_from_filename("track.mp3", 7), "Chapter 07");
    assert_eq!(scanner.extract_chapter_title_from_filename("part5.mp3", 5), "Chapter 5");
    assert_eq!(scanner.extract_chapter_title_from_filename("intro.mp3", 12), "Chapter 12");
}

#[test]
fn test_clean_chapter_title() {
    let scanner = FileSystemScanner::new();
    assert_eq!(scanner.clean_chapter_title("the_great_escape"), "The Great Escape");
    assert_eq!(scanner.clean_chapter_title("  MANY   spaces  "), "Many Spaces");
    assert_eq!(scanner.clean_chapter_title(""), "");
}

#[test]
fn test_detect_text_chapters() {
    let p = DocumentProcessor::new();
    let text = "Chapter 1\nline one\nline two\nline three\nline four\nline five\nline six\nChapter 2\nsecond one\nsecond two\nsecond three\nsecond four\nsecond five\nsecond six\n";
    let chapters = p.detect_text_chapters(text, "Book");
    assert_eq!(chapters.len(), 2);
    assert_eq!(chapters[0].title, "Chapter 1");
    assert_eq!(chapters[0].text, "line one\nline two\nline three\nline four\nline five\nline six");
    assert_eq!(chapters[0].word_count, 12);
    assert_eq!(chapters[1].title, "Chapter 2");
}

#[test]
fn test_detect_text_chapters_fallback() {
    let p = DocumentProcessor::new();
    let chapters = p.detect_text_chapters("  just a short note  ", "Note");
    assert_eq!(chapters.len(), 1);
    assert_eq!(chapters[0].title, "Note");
    assert_eq!(chapters[0].text, "just a short note");
    assert_eq!(chapters[0].word_count, 4);
}

#[test]
fn test_split_text_by_sections() {
    let p = DocumentProcessor::new();
    let chapters = p.split_text_by_sections("one two three", "Essay");
    assert_eq!(chapters.len(), 1);
    assert_eq!(chapters[0].title, "Essay - Section 1");
    assert_eq!(chapters[0].text, "one two three");
    assert_eq!(chapters[0].word_count, 3);
}

#[test]
fn test_split_text_by_sections_chunking() {
    let p = DocumentProcessor::new();
    let mut text = String::new();
    for i in 0..2500 {
        text.push_str("w");
        text.push_str(&i.to_string());
        text.push(' ');
    }
    let chapters = p.split_text_by_sections(&text, "Long");
    assert_eq!(chapters.len(), 2);
    assert_eq!(chapters[0].word_count, 2000);
    assert_eq!(chapters[1].word_count, 500);
    assert_eq!(chapters[1].title, "Long - Section 2");
}

#[test]
fn test_split_text_by_sections_empty() {
    let p = DocumentProcessor::new();
    let chapters = p.split_text_by_sections("", "Empty");
    assert_eq!(chapters.len(), 1);
    assert_eq!(chapters[0].title, "Empty");
    assert_eq!(chapters[0].word_count, 0);
}

#[test]
fn test_process_document_txt() {
    let p = DocumentProcessor::new();
    let doc = p
        .process_document("/docs/story.txt", None, None, vec!["a tiny tale".to_string()])
        .unwrap();
    assert_eq!(doc.format, "txt");
    assert_eq!(doc.title, "story");
    assert_eq!(doc.total_chapters, 1);
    assert_eq!(doc.chapters[0].text, "a tiny tale");
}

#[test]
fn test_process_document_pdf() {
    let p = DocumentProcessor::new();
    let doc = p
        .process_document("/docs/paper.PDF", None, None, vec!["alpha beta gamma".to_string()])
        .unwrap();
    assert_eq!(doc.format, "pdf");
    assert_eq!(doc.title, "paper");
    assert_eq!(doc.total_chapters, 1);
    assert_eq!(doc.chapters[0].title, "paper - Section 1");
    assert_eq!(doc.chapters[0].word_count, 3);
}

#[test]
fn test_process_document_epub() {
    let p = DocumentProcessor::new();
    let long = format!("<p>{}</p>", "word ".repeat(40));
    let doc = p
        .process_document(
            "/docs/novel.epub",
            Some("The Novel".to_string()),
            Some("Someone".to_string()),
            vec!["<p>short</p>".to_string(), long],
        )
        .unwrap();
    assert_eq!(doc.format, "epub");
    assert_eq!(doc.title, "The Novel");
    assert_eq!(doc.author.as_deref(), Some("Someone"));
    assert_eq!(doc.total_chapters, 1);
    assert_eq!(doc.chapters[0].title, "Chapter 1");
    assert_eq!(doc.chapters[0].word_count, 40);
}

#[test]
fn test_process_document_epub_fallback() {
    let p = DocumentProcessor::new();
    let doc = p
        .process_document(
            "/docs/novel.epub",
            None,
            None,
            vec!["<p>short one</p>".to_string(), "<i>short two</i>".to_string()],
        )
        .unwrap();
    assert_eq!(doc.title, "novel");
    assert_eq!(doc.total_chapters, 1);
    assert_eq!(doc.chapters[0].text, "short one\n\nshort two\n\n");
    assert_eq!(doc.chapters[0].word_count, 4);
}

#[test]
fn test_process_document_errors() {
    let p = DocumentProcessor::new();
    assert_eq!(
        p.process_document("noext", None, None, vec![]).unwrap_err(),
        DocumentError::NoExtension
    );
    assert_eq!(
        p.process_document("file.docx", None, None, vec![]).unwrap_err(),
        DocumentError::UnsupportedFormat
    );
}
