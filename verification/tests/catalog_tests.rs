use audiovibe_core::models::{
    Audiobook, Chapter, Collection, CollectionAudiobook, EbookAnnotation, EbookBookmark,
    EbookMetadataExtractor, EpubSourceData, MetadataError, epub_metadata_from_parts,
};
use audiovibe_core::models::Ebook;
use audiovibe_core::models::RecommendationFeedback;

#[test]
fn test_audiobook_new() {
    let b = Audiobook::new("A Title".to_string(), "/books/a.mp3".to_string());
    assert_eq!(b.id.len(), 36);
    assert_eq!(b.title, "A Title");
    assert_eq!(b.file_path, "/books/a.mp3");
    assert!(b.author.is_none());
    assert_eq!(b.chapters_count, 0);
    assert_eq!(b.created_at, b.updated_at);
    assert_eq!(b.added_date, b.created_at);
    // identifiers are fresh per record
    let b2 = Audiobook::new("A Title".to_string(), "/books/a.mp3".to_string());
    assert_ne!(b.id, b2.id);
}

#[test]
fn test_chapter_new() {
    let c = Chapter::new("book-1".to_string(), 3, "Three".to_string(), "/c/3.mp3".to_string());
    assert_eq!(c.id.len(), 36);
    assert_eq!(c.audiobook_id, "book-1");
    assert_eq!(c.chapter_number, 3);
    assert!(c.duration.is_none());
}

#[test]
fn test_collection_new() {
    let c = Collection::new("Favorites".to_string());
    assert_eq!(c.color, "#3B82F6");
    assert!(!c.is_smart);
    assert!(c.smart_criteria.is_none());
}

#[test]
fn test_collection_audiobook_new() {
    let m = CollectionAudiobook::new("col".to_string(), "book".to_string());
    assert_eq!(m.sort_order, 0);
    assert_eq!(m.collection_id, "col");
}

#[test]
fn test_ebook_new() {
    let e = Ebook::new("T".to_string(), "/e/t.epub".to_string(), "epub".to_string());
    assert_eq!(e.file_format, "epub");
    assert_eq!(e.added_date, e.created_at);
    assert_eq!(e.modified_date, e.created_at);
}

#[test]
fn test_bookmark_and_annotation_new() {
    let b = EbookBookmark::new("e1".to_string());
    assert_eq!(b.ebook_id, "e1");
    assert!(b.page_number.is_none());
    let a = EbookAnnotation::new("e1".to_string(), "highlight".to_string());
    assert_eq!(a.annotation_type, "highlight");
    assert!(a.color.is_none());
}

#[test]
fn test_recommendation_feedback_new() {
    let f = RecommendationFeedback::new("r1".to_string(), "like".to_string(), 1, None);
    assert_eq!(f.recommendation_id, "r1");
    assert_eq!(f.feedback_value, 1);
    assert!(f.feedback_reason.is_none());
}

#[test]
fn test_epub_metadata_from_parts_cover_encoding() {
    // base64 of [1, 2, 3] under the standard alphabet
    let m = epub_metadata_from_parts(
        Some("stem".to_string()),
        Some("Real Title".to_string()),
        None,
        None,
        None,
        None,
        None,
        Some(vec![1u8, 2u8, 3u8]),
    );
    assert_eq!(m.title.as_deref(), Some("Real Title"));
    assert_eq!(m.cover_image.as_deref(), Some("AQID"));
}

#[test]
fn test_epub_metadata_title_fallback() {
    let m = epub_metadata_from_parts(
        Some("stem".to_string()),
        None,
        Some("A. Author".to_string()),
        None,
        None,
        None,
        None,
        None,
    );
    assert_eq!(m.title.as_deref(), Some("stem"));
    assert_eq!(m.author.as_deref(), Some("A. Author"));
    assert!(m.cover_image.is_none());
}

#[test]
fn test_extract_metadata_pdf() {
    let x = EbookMetadataExtractor::new();
    let m = x.extract_metadata("/shelf/my book.pdf", None).unwrap();
    assert_eq!(m.title.as_deref(), Some("my book"));
    assert!(m.author.is_none());
    assert!(m.cover_image.is_none());
}

#[test]
fn test_extract_metadata_epub() {
    let x = EbookMetadataExtractor::new();
    let data = EpubSourceData {
        title: Some("Found Title".to_string()),
        author: Some("Author".to_string()),
        publisher: None,
        language: Some("en".to_string()),
        publication_date: None,
        description: None,
        cover: Some(vec![1u8, 2u8, 3u8]),
    };
    let m = x.extract_metadata("/shelf/book.epub", Some(data)).unwrap();
    assert_eq!(m.title.as_deref(), Some("Found Title"));
    assert_eq!(m.language.as_deref(), Some("en"));
    assert_eq!(m.cover_image.as_deref(), Some("AQID"));
}

#[test]
fn test_extract_metadata_errors() {
    let x = EbookMetadataExtractor::new();
    assert_eq!(x.extract_metadata("noext", None).unwrap_err(), MetadataError::NoExtension);
    assert_eq!(
        x.extract_metadata("book.mobi", None).unwrap_err(),
        MetadataError::UnsupportedFormat
    );
    assert_eq!(x.extract_metadata("book.epub", None).unwrap_err(), MetadataError::OpenFailed);
}
