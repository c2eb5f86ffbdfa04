//! The catalog records the player keeps in its local store, their creation
//! helpers, and the transfer records exchanged with the UI layer. Identifiers
//! and timestamps come from outside generators through two trusted wrappers;
//! everything built around them is verified.

use vstd::prelude::*;
use crate::engine::opt_string_view;

verus! {

/// Relies on `uuid::Uuid::new_v4` and its `Display`: a fresh random
/// identifier in the hyphenated form, which is always 36 characters. The
/// value is random, so nothing more is stated.
#[verifier::external_body]
fn fresh_uuid() -> (r: String)
    ensures
        r@.len() == 36,
{
    uuid::Uuid::new_v4().to_string()
}

/// Relies on `chrono::Utc::now` and `DateTime::to_rfc3339`: the current
/// wall-clock time in RFC 3339 form. The value depends on the clock, so only
/// non-emptiness is stated.
#[verifier::external_body]
fn now_rfc3339() -> (r: String)
    ensures
        r@.len() > 0,
{
    chrono::Utc::now().to_rfc3339()
}

/// What the standard base64 alphabet, with padding, makes of a byte string:
/// a pure function of the bytes, named here and pinned only by the trusted
/// wrapper below.
pub uninterp spec fn b64_of(bytes: Seq<u8>) -> Seq<char>;

/// Relies on `base64::engine::general_purpose::STANDARD` via
/// `Engine::encode`: the standard-alphabet, padded encoding; four output
/// characters for every started group of three bytes. The length bound keeps
/// the size computation inside the crate from panicking.
#[verifier::external_body]
fn base64_encode(bytes: &Vec<u8>) -> (r: String)
    requires
        bytes@.len() <= usize::MAX / 4,
    ensures
        r@ == b64_of(bytes@),
        r@.len() == ((bytes@.len() + 2) / 3) * 4,
{
    base64::Engine::encode(&base64::engine::general_purpose::STANDARD, bytes)
}

/// One audiobook record of the local store.
#[derive(Debug, Clone)]
pub struct Audiobook {
    pub id: String,
    pub title: String,
    pub author: Option<String>,
    pub narrator: Option<String>,
    /// Duration in seconds.
    pub duration: Option<i64>,
    pub file_path: String,
    pub cover_image_path: Option<String>,
    pub description: Option<String>,
    pub genre: Option<String>,
    pub publish_date: Option<String>,
    pub added_date: String,
    pub file_size: Option<i64>,
    pub bitrate: Option<i32>,
    pub sample_rate: Option<i32>,
    pub chapters_count: i32,
    pub created_at: String,
    pub updated_at: String,
}

impl Audiobook {
    /// A fresh record: a new identifier, the same timestamp everywhere, every
    /// optional field empty.
    pub fn new(title: String, file_path: String) -> (r: Self)
        ensures
            r.id@.len() == 36,
            r.title@ == title@,
            r.file_path@ == file_path@,
            r.author is None,
            r.narrator is None,
            r.duration is None,
            r.cover_image_path is None,
            r.description is None,
            r.genre is None,
            r.publish_date is None,
            r.file_size is None,
            r.bitrate is None,
            r.sample_rate is None,
            r.chapters_count == 0,
            r.added_date@ == r.created_at@,
            r.created_at@ == r.updated_at@,
            r.created_at@.len() > 0,
    {
        let id = fresh_uuid();
        let now = now_rfc3339();
        Audiobook {
            id,
            title,
            author: None,
            narrator: None,
            duration: None,
            file_path,
            cover_image_path: None,
            description: None,
            genre: None,
            publish_date: None,
            added_date: now.clone(),
            file_size: None,
            bitrate: None,
            sample_rate: None,
            chapters_count: 0,
            created_at: now.clone(),
            updated_at: now,
        }
    }
}

/// One chapter of an audiobook.
#[derive(Debug, Clone)]
pub struct Chapter {
    pub id: String,
    pub audiobook_id: String,
    pub chapter_number: i32,
    pub title: String,
    pub file_path: String,
    /// Duration in seconds.
    pub duration: Option<i64>,
    pub file_size: Option<i64>,
    pub created_at: String,
    pub updated_at: String,
}

impl Chapter {
    /// A fresh chapter record with a new identifier and one timestamp.
    pub fn new(audiobook_id: String, chapter_number: i32, title: String, file_path: String) -> (r:
        Self)
        ensures
            r.id@.len() == 36,
            r.audiobook_id@ == audiobook_id@,
            r.chapter_number == chapter_number,
            r.title@ == title@,
            r.file_path@ == file_path@,
            r.duration is None,
            r.file_size is None,
            r.created_at@ == r.updated_at@,
            r.created_at@.len() > 0,
    {
        let id = fresh_uuid();
        let now = now_rfc3339();
        Chapter {
            id,
            audiobook_id,
            chapter_number,
            title,
            file_path,
            duration: None,
            file_size: None,
            created_at: now.clone(),
            updated_at: now,
        }
    }
}

/// A user-made grouping of audiobooks.
#[derive(Debug, Clone)]
pub struct Collection {
    pub id: String,
    pub name: String,
    pub description: Option<String>,
    pub color: String,
    pub is_smart: bool,
    pub smart_criteria: Option<String>,
    pub created_at: String,
    pub updated_at: String,
}

impl Collection {
    /// A fresh, plain (non-smart) collection in the default color.
    pub fn new(name: String) -> (r: Self)
        ensures
            r.id@.len() == 36,
            r.name@ == name@,
            r.description is None,
            r.color@ == "#3B82F6"@,
            !r.is_smart,
            r.smart_criteria is None,
            r.created_at@ == r.updated_at@,
            r.created_at@.len() > 0,
    {
        let id = fresh_uuid();
        let now = now_rfc3339();
        Collection {
            id,
            name,
            description: None,
            color: "#3B82F6".to_owned(),
            is_smart: false,
            smart_criteria: None,
            created_at: now.clone(),
            updated_at: now,
        }
    }
}

/// Membership of an audiobook in a collection.
#[derive(Debug, Clone)]
pub struct CollectionAudiobook {
    pub id: String,
    pub collection_id: String,
    pub audiobook_id: String,
    pub added_at: String,
    pub sort_order: i32,
}

impl CollectionAudiobook {
    /// A fresh membership row at sort position 0.
    pub fn new(collection_id: String, audiobook_id: String) -> (r: Self)
        ensures
            r.id@.len() == 36,
            r.collection_id@ == collection_id@,
            r.audiobook_id@ == audiobook_id@,
            r.sort_order == 0,
            r.added_at@.len() > 0,
    {
        let id = fresh_uuid();
        let now = now_rfc3339();
        CollectionAudiobook { id, collection_id, audiobook_id, added_at: now, sort_order: 0 }
    }
}

/// Request to create an audiobook record.
#[derive(Debug, Clone)]
pub struct CreateAudiobookDto {
    pub title: String,
    pub file_path: String,
    pub author: Option<String>,
    pub narrator: Option<String>,
    pub description: Option<String>,
    pub genre: Option<String>,
    pub duration: Option<i64>,
    pub cover_image_path: Option<String>,
}

/// Request to create a collection.
#[derive(Debug, Clone)]
pub struct CreateCollectionDto {
    pub name: String,
    pub description: Option<String>,
    pub color: Option<String>,
}

/// Library search criteria; every field is optional and restricts the match.
#[derive(Debug, Clone)]
pub struct SearchFilters {
    pub query: Option<String>,
    pub author: Option<String>,
    pub genre: Option<String>,
    pub narrator: Option<String>,
    pub min_duration: Option<i64>,
    pub max_duration: Option<i64>,
    pub added_after: Option<String>,
    pub added_before: Option<String>,
}

/// A user's reaction to one recommendation.
#[derive(Debug, Clone)]
pub struct RecommendationFeedback {
    pub id: String,
    pub recommendation_id: String,
    pub feedback_type: String,
    pub feedback_value: i32,
    pub feedback_reason: Option<String>,
    pub created_at: String,
}

impl RecommendationFeedback {
    /// A fresh feedback row with a new identifier and one timestamp.
    pub fn new(
        recommendation_id: String,
        feedback_type: String,
        feedback_value: i32,
        feedback_reason: Option<String>,
    ) -> (r: Self)
        ensures
            r.id@.len() == 36,
            r.recommendation_id@ == recommendation_id@,
            r.feedback_type@ == feedback_type@,
            r.feedback_value == feedback_value,
            opt_string_view(r.feedback_reason) == opt_string_view(feedback_reason),
            r.created_at@.len() > 0,
    {
        let id = fresh_uuid();
        let now = now_rfc3339();
        RecommendationFeedback {
            id,
            recommendation_id,
            feedback_type,
            feedback_value,
            feedback_reason,
            created_at: now,
        }
    }
}

/// Request to record recommendation feedback.
#[derive(Debug, Clone)]
pub struct CreateRecommendationFeedbackDto {
    pub recommendation_id: String,
    pub feedback_type: String,
    pub feedback_value: i32,
    pub feedback_reason: Option<String>,
}

/// Request to create a chapter record.
#[derive(Debug, Clone)]
pub struct CreateChapterDto {
    pub audiobook_id: String,
    pub chapter_number: i32,
    pub title: String,
    pub file_path: String,
    pub duration: Option<i64>,
    pub file_size: Option<i64>,
}

/// One ebook record of the local store.
#[derive(Debug, Clone)]
pub struct Ebook {
    pub id: String,
    pub title: String,
    pub author: Option<String>,
    pub file_path: String,
    /// Either "pdf" or "epub".
    pub file_format: String,
    pub cover_path: Option<String>,
    pub total_pages: Option<i32>,
    pub file_size: Option<i64>,
    pub language: Option<String>,
    pub publisher: Option<String>,
    pub publication_date: Option<String>,
    pub description: Option<String>,
    pub genre: Option<String>,
    pub added_date: String,
    pub modified_date: String,
    pub created_at: String,
    pub updated_at: String,
}

impl Ebook {
    /// A fresh ebook record: a new identifier, the same timestamp everywhere,
    /// every optional field empty.
    pub fn new(title: String, file_path: String, file_format: String) -> (r: Self)
        ensures
            r.id@.len() == 36,
            r.title@ == title@,
            r.file_path@ == file_path@,
            r.file_format@ == file_format@,
            r.author is None,
            r.cover_path is None,
            r.total_pages is None,
            r.file_size is None,
            r.language is None,
            r.publisher is None,
            r.publication_date is None,
            r.description is None,
            r.genre is None,
            r.added_date@ == r.created_at@,
            r.modified_date@ == r.created_at@,
            r.created_at@ == r.updated_at@,
            r.created_at@.len() > 0,
    {
        let id = fresh_uuid();
        let now = now_rfc3339();
        Ebook {
            id,
            title,
            author: None,
            file_path,
            file_format,
            cover_path: None,
            total_pages: None,
            file_size: None,
            language: None,
            publisher: None,
            publication_date: None,
            description: None,
            genre: None,
            added_date: now.clone(),
            modified_date: now.clone(),
            created_at: now.clone(),
            updated_at: now,
        }
    }
}

/// A saved reading position marker in an ebook.
#[derive(Debug, Clone)]
pub struct EbookBookmark {
    pub id: String,
    pub ebook_id: String,
    pub page_number: Option<i32>,
    pub cfi: Option<String>,
    pub chapter_title: Option<String>,
    pub note: Option<String>,
    pub created_date: String,
    pub created_at: String,
    pub updated_at: String,
}

impl EbookBookmark {
    /// A fresh, empty bookmark for `ebook_id`.
    pub fn new(ebook_id: String) -> (r: Self)
        ensures
            r.id@.len() == 36,
            r.ebook_id@ == ebook_id@,
            r.page_number is None,
            r.cfi is None,
            r.chapter_title is None,
            r.note is None,
            r.created_date@ == r.created_at@,
            r.created_at@ == r.updated_at@,
            r.created_at@.len() > 0,
    {
        let id = fresh_uuid();
        let now = now_rfc3339();
        EbookBookmark {
            id,
            ebook_id,
            page_number: None,
            cfi: None,
            chapter_title: None,
            note: None,
            created_date: now.clone(),
            created_at: now.clone(),
            updated_at: now,
        }
    }
}

/// A highlight, underline or note anchored in an ebook.
#[derive(Debug, Clone)]
pub struct EbookAnnotation {
    pub id: String,
    pub ebook_id: String,
    /// One of "highlight", "underline" or "note".
    pub annotation_type: String,
    pub color: Option<String>,
    pub cfi_range: Option<String>,
    pub position_data: Option<String>,
    pub selected_text: Option<String>,
    pub note: Option<String>,
    pub created_date: String,
    pub created_at: String,
    pub updated_at: String,
}

impl EbookAnnotation {
    /// A fresh, empty annotation of the given kind for `ebook_id`.
    pub fn new(ebook_id: String, annotation_type: String) -> (r: Self)
        ensures
            r.id@.len() == 36,
            r.ebook_id@ == ebook_id@,
            r.annotation_type@ == annotation_type@,
            r.color is None,
            r.cfi_range is None,
            r.position_data is None,
            r.selected_text is None,
            r.note is None,
            r.created_date@ == r.created_at@,
            r.created_at@ == r.updated_at@,
            r.created_at@.len() > 0,
    {
        let id = fresh_uuid();
        let now = now_rfc3339();
        EbookAnnotation {
            id,
            ebook_id,
            annotation_type,
            color: None,
            cfi_range: None,
            position_data: None,
            selected_text: None,
            note: None,
            created_date: now.clone(),
            created_at: now.clone(),
            updated_at: now,
        }
    }
}

/// Request to create an ebook record.
#[derive(Debug, Clone)]
pub struct CreateEbookDto {
    pub title: String,
    pub file_path: String,
    pub file_format: String,
    pub author: Option<String>,
    pub description: Option<String>,
    pub genre: Option<String>,
    pub language: Option<String>,
    pub publisher: Option<String>,
    pub publication_date: Option<String>,
    pub total_pages: Option<i32>,
    pub file_size: Option<i64>,
    pub cover_path: Option<String>,
}

/// Request to change ebook fields; absent fields stay as they are.
#[derive(Debug, Clone)]
pub struct UpdateEbookDto {
    pub title: Option<String>,
    pub author: Option<String>,
    pub description: Option<String>,
    pub genre: Option<String>,
    pub cover_path: Option<String>,
    pub publisher: Option<String>,
    pub publication_date: Option<String>,
}

/// Request to create a bookmark.
#[derive(Debug, Clone)]
pub struct CreateBookmarkDto {
    pub ebook_id: String,
    pub page_number: Option<i32>,
    pub cfi: Option<String>,
    pub chapter_title: Option<String>,
    pub note: Option<String>,
}

/// Request to create an annotation.
#[derive(Debug, Clone)]
pub struct CreateAnnotationDto {
    pub ebook_id: String,
    pub annotation_type: String,
    pub color: Option<String>,
    pub cfi_range: Option<String>,
    pub position_data: Option<String>,
    pub selected_text: Option<String>,
    pub note: Option<String>,
}

/// Metadata extracted from an ebook file, best-effort.
#[derive(Debug, Clone)]
pub struct EbookMetadata {
    pub title: Option<String>,
    pub author: Option<String>,
    pub publisher: Option<String>,
    pub language: Option<String>,
    pub publication_date: Option<String>,
    pub total_pages: Option<i32>,
    /// The cover image, base64-encoded.
    pub cover_image: Option<String>,
    pub description: Option<String>,
}

/// Application identity and build facts shown in the UI.
#[derive(Debug, Clone)]
pub struct AppConfig {
    pub version: String,
    pub initialized: bool,
    pub app_name: String,
    pub build_date: String,
}

/// Host platform facts shown in the UI.
#[derive(Debug, Clone)]
pub struct SystemInfo {
    pub platform: String,
    pub arch: String,
    pub version: String,
    pub tauri_version: String,
}

/// Where a downloaded archive landed and what was unpacked from it.
#[derive(Debug, Clone)]
pub struct DownloadResult {
    pub local_path: String,
    pub extracted_files: Vec<String>,
}

/// Assemble ebook metadata from fields read out of an epub container,
/// falling back to the file stem for a missing title and encoding the cover
/// image to base64. This is the pure half of epub extraction; reading the
/// container itself is the caller's side.
pub fn epub_metadata_from_parts(
    fallback_title: Option<String>,
    title: Option<String>,
    author: Option<String>,
    publisher: Option<String>,
    language: Option<String>,
    publication_date: Option<String>,
    description: Option<String>,
    cover: Option<Vec<u8>>,
) -> (r: EbookMetadata)
    requires
        cover matches Some(c) ==> c@.len() <= usize::MAX / 4,
    ensures
        opt_string_view(r.title) == (if title is Some {
            opt_string_view(title)
        } else {
            opt_string_view(fallback_title)
        }),
        opt_string_view(r.author) == opt_string_view(author),
        opt_string_view(r.publisher) == opt_string_view(publisher),
        opt_string_view(r.language) == opt_string_view(language),
        opt_string_view(r.publication_date) == opt_string_view(publication_date),
        opt_string_view(r.description) == opt_string_view(description),
        r.total_pages is None,
        match (r.cover_image, cover) {
            (Some(ci), Some(c)) => ci@ == b64_of(c@),
            (None, None) => true,
            _ => false,
        },
{
    EbookMetadata {
        title: match title {
            Some(t) => Some(t),
            None => fallback_title,
        },
        author,
        publisher,
        language,
        publication_date,
        total_pages: None,
        cover_image: match cover {
            Some(c) => Some(base64_encode(&c)),
            None => None,
        },
        description,
    }
}


/// Why ebook metadata could not be extracted.
#[derive(Debug, Clone, Copy, PartialEq, Eq, Structural)]
pub enum MetadataError {
    /// The file name has no extension to dispatch on.
    NoExtension,
    /// The extension names no supported ebook format.
    UnsupportedFormat,
    /// The epub container could not be opened or read.
    OpenFailed,
}

/// What the caller read out of an epub container: the named metadata fields
/// and the raw cover image, if any.
#[derive(Debug, Clone)]
pub struct EpubSourceData {
    pub title: Option<String>,
    pub author: Option<String>,
    pub publisher: Option<String>,
    pub language: Option<String>,
    pub publication_date: Option<String>,
    pub description: Option<String>,
    pub cover: Option<Vec<u8>>,
}

/// Extracts catalog metadata from ebook files. The verified part dispatches
/// on the extension and assembles the record; reading an epub container is
/// the hosting layer's side, handed in as `EpubSourceData`.
pub struct EbookMetadataExtractor;

impl EbookMetadataExtractor {
    pub fn new() -> (r: Self) {
        EbookMetadataExtractor
    }

    /// Metadata for a PDF: only the title, taken from the file stem.
    pub fn extract_pdf_metadata(&self, file_path: &str) -> (r: EbookMetadata)
        ensures
            (r.title matches Some(t) && t@ == crate::document::spec_stem_of(file_path@)),
            r.author is None,
            r.publisher is None,
            r.language is None,
            r.publication_date is None,
            r.total_pages is None,
            r.cover_image is None,
            r.description is None,
    {
        let cs = crate::strutil::chars_of(file_path);
        let stem = stem_chars(&cs);
        EbookMetadata {
            title: Some(crate::strutil::string_from_chars(&stem)),
            author: None,
            publisher: None,
            language: None,
            publication_date: None,
            total_pages: None,
            cover_image: None,
            description: None,
        }
    }

    /// Extract metadata for the file: from the stem alone for "pdf"; from the
    /// fields the caller read out of the container for "epub", with the stem
    /// as the fallback title and `OpenFailed` when the container could not be
    /// read (`epub_source` is `None`). Other extensions are unsupported.
    pub fn extract_metadata(&self, file_path: &str, epub_source: Option<EpubSourceData>) -> (r:
        Result<EbookMetadata, MetadataError>)
        requires
            match epub_source {
                Some(d) => match d.cover {
                    Some(c) => c@.len() <= usize::MAX / 4,
                    None => true,
                },
                None => true,
            },
        ensures
            match r {
                Err(e) => {
                    &&& (e == MetadataError::NoExtension) <==> crate::scanner::spec_extension_of(
                        file_path@,
                    ) is None
                    &&& (e == MetadataError::OpenFailed ==> epub_source is None && (
                    crate::scanner::spec_extension_of(file_path@) matches Some(e0)
                        && crate::strutil::lower_seq(e0) == "epub"@))
                    &&& (e == MetadataError::UnsupportedFormat
                        ==> (crate::scanner::spec_extension_of(file_path@) matches Some(e0) && !{
                        let x = crate::strutil::lower_seq(e0);
                        x == "pdf"@ || x == "epub"@
                    }))
                },
                Ok(m) => crate::scanner::spec_extension_of(file_path@) matches Some(e0) && {
                    let e = crate::strutil::lower_seq(e0);
                    let stem = crate::document::spec_stem_of(file_path@);
                    &&& (e == "pdf"@ || e == "epub"@)
                    &&& (e == "pdf"@ ==> (m.title matches Some(t) && t@ == stem) && m.author is None
                        && m.publisher is None && m.language is None && m.publication_date is None
                        && m.total_pages is None && m.cover_image is None && m.description is None)
                    &&& (e == "epub"@ ==> (epub_source matches Some(d) && {
                        &&& opt_string_view(m.title) == (if d.title is Some {
                            opt_string_view(d.title)
                        } else {
                            Some(stem)
                        })
                        &&& opt_string_view(m.author) == opt_string_view(d.author)
                        &&& opt_string_view(m.publisher) == opt_string_view(d.publisher)
                        &&& opt_string_view(m.language) == opt_string_view(d.language)
                        &&& opt_string_view(m.publication_date) == opt_string_view(
                            d.publication_date,
                        )
                        &&& opt_string_view(m.description) == opt_string_view(d.description)
                        &&& m.total_pages is None
                        &&& match (m.cover_image, d.cover) {
                            (Some(ci), Some(c)) => ci@ == b64_of(c@),
                            (None, None) => true,
                            _ => false,
                        }
                    }))
                },
            },
    {
        let cs = crate::strutil::chars_of(file_path);
        let name_start = crate::strutil::after_last_pos(&cs, '/');
        let name = crate::strutil::sub_vec(&cs, name_start, cs.len());
        let dot = crate::strutil::after_last_pos(&name, '.');
        if dot <= 1 {
            proof {
                assert(crate::scanner::spec_extension_of(file_path@) is None);
            }
            return Err(MetadataError::NoExtension);
        }
        let ext = crate::strutil::sub_vec(&name, dot, name.len());
        let low = crate::strutil::lower_chars(&ext);
        let stem = crate::strutil::sub_vec(&name, 0, dot - 1);
        proof {
            assert(crate::strutil::after_last(name@, '.') == ext@);
            assert(crate::scanner::spec_extension_of(file_path@) == Some(ext@));
            assert(crate::document::spec_stem_of(file_path@) == stem@);
            reveal_strlit("pdf");
            reveal_strlit("epub");
        }
        if crate::strutil::chars_eq(&low, &crate::strutil::chars_of("pdf")) {
            proof {
                assert("pdf"@.len() == 3 && "epub"@.len() == 4);
            }
            Ok(self.extract_pdf_metadata(file_path))
        } else if crate::strutil::chars_eq(&low, &crate::strutil::chars_of("epub")) {
            match epub_source {
                Some(d) => Ok(
                    epub_metadata_from_parts(
                        Some(crate::strutil::string_from_chars(&stem)),
                        d.title,
                        d.author,
                        d.publisher,
                        d.language,
                        d.publication_date,
                        d.description,
                        d.cover,
                    ),
                ),
                None => Err(MetadataError::OpenFailed),
            }
        } else {
            Err(MetadataError::UnsupportedFormat)
        }
    }
}

/// The file stem of a path, as characters.
fn stem_chars(cs: &Vec<char>) -> (r: Vec<char>)
    ensures
        r@ == crate::document::spec_stem_of(cs@),
{
    let name_start = crate::strutil::after_last_pos(cs, '/');
    let name = crate::strutil::sub_vec(cs, name_start, cs.len());
    let dot = crate::strutil::after_last_pos(&name, '.');
    if dot <= 1 {
        proof {
            assert(crate::scanner::spec_extension_of(cs@) is None);
        }
        name
    } else {
        proof {
            assert(crate::strutil::after_last(name@, '.') == name@.subrange(
                dot as int,
                name@.len() as int,
            ));
            assert(crate::scanner::spec_extension_of(cs@) == Some(name@.subrange(
                dot as int,
                name@.len() as int,
            )));
        }
        crate::strutil::sub_vec(&name, 0, dot - 1)
    }
}

} // verus!
