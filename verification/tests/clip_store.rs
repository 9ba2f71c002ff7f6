//! Exercises of the clip store: creation defaults, lookups, soft deletion,
//! view counting and pagination.

use clipboard_server::clips::{
    get_clip_by_id, get_clip_by_short_url, get_user_clips, ClipRepository,
};
use clipboard_server::errors::{error_status, ApiError};
use clipboard_server::models::{CreateClip, Pagination, UpdateClip};

fn minimal_clip(content: &str) -> CreateClip {
    CreateClip {
        title: None,
        content: content.to_string(),
        content_type: None,
        language: None,
        is_encrypted: None,
        access_type: None,
        expires_at: None,
        tags: None,
    }
}

#[test]
fn create_applies_defaults() {
    let mut clips = ClipRepository::new();
    let c = clips.create_clip(1, &minimal_clip("hello"), 100).unwrap();
    assert_eq!(c.id, 1);
    assert_eq!(c.user_id, 1);
    assert_eq!(c.content, "hello");
    assert_eq!(c.content_type, "text");
    assert_eq!(c.access_type, "private");
    assert_eq!(c.is_encrypted, 0);
    assert_eq!(c.view_count, 0);
    assert!(c.title.is_none());
    assert!(c.deleted_at.is_none());
    assert_eq!(c.short_url.as_ref().unwrap().len(), 8);
    assert_eq!(c.created_at, 100);
}

#[test]
fn create_keeps_explicit_fields() {
    let mut clips = ClipRepository::new();
    let body = CreateClip {
        title: Some("t".to_string()),
        content: "c".to_string(),
        content_type: Some("markdown".to_string()),
        language: Some("en".to_string()),
        is_encrypted: Some(true),
        access_type: Some("public".to_string()),
        expires_at: Some(500),
        tags: Some(vec!["a".to_string(), "b".to_string()]),
    };
    let c = clips.create_clip(2, &body, 100).unwrap();
    assert_eq!(c.title.as_deref(), Some("t"));
    assert_eq!(c.content_type, "markdown");
    assert_eq!(c.language.as_deref(), Some("en"));
    assert_eq!(c.is_encrypted, 1);
    assert_eq!(c.access_type, "public");
    assert_eq!(c.expires_at, Some(500));
    assert_eq!(c.tags.as_ref().unwrap(), &vec!["a".to_string(), "b".to_string()]);
}

#[test]
fn lookup_by_id_counts_views() {
    let mut clips = ClipRepository::new();
    clips.create_clip(1, &minimal_clip("hello"), 100).unwrap();

    let first = get_clip_by_id(&mut clips, 1).unwrap();
    assert_eq!(first.view_count, 0);
    let second = get_clip_by_id(&mut clips, 1).unwrap();
    assert_eq!(second.view_count, 1);

    let e = get_clip_by_id(&mut clips, 7).unwrap_err();
    assert_eq!(e, ApiError::NotFound);
    assert_eq!(error_status(&e), 404);
}

#[test]
fn lookup_by_short_url_respects_expiry() {
    let mut clips = ClipRepository::new();
    let mut body = minimal_clip("short-lived");
    body.expires_at = Some(150);
    let c = clips.create_clip(1, &body, 100).unwrap();
    let url = c.short_url.clone().unwrap();

    let hit = get_clip_by_short_url(&mut clips, &url, 149).unwrap();
    assert_eq!(hit.id, c.id);
    let e = get_clip_by_short_url(&mut clips, &url, 150).unwrap_err();
    assert_eq!(e, ApiError::NotFound);
    let e = get_clip_by_short_url(&mut clips, &"nosuchurl".to_string(), 100).unwrap_err();
    assert_eq!(e, ApiError::NotFound);
}

#[test]
fn update_coalesces_and_overwrites() {
    let mut clips = ClipRepository::new();
    let body = CreateClip {
        title: Some("keep me".to_string()),
        content: "original".to_string(),
        content_type: None,
        language: Some("en".to_string()),
        is_encrypted: None,
        access_type: None,
        expires_at: Some(900),
        tags: None,
    };
    clips.create_clip(1, &body, 100).unwrap();

    let update = UpdateClip {
        title: None,
        content: Some("updated".to_string()),
        content_type: None,
        language: None,
        access_type: Some("public".to_string()),
        expires_at: None,
        tags: Some(vec!["x".to_string()]),
    };
    let c = clips.update_clip(1, 1, &update).unwrap();
    assert_eq!(c.title.as_deref(), Some("keep me"));
    assert_eq!(c.content, "updated");
    assert_eq!(c.content_type, "text");
    assert!(c.language.is_none());
    assert_eq!(c.access_type, "public");
    assert!(c.expires_at.is_none());
    assert_eq!(c.tags.as_ref().unwrap(), &vec!["x".to_string()]);
}

#[test]
fn update_of_foreign_clip_changes_nothing() {
    let mut clips = ClipRepository::new();
    clips.create_clip(1, &minimal_clip("mine"), 100).unwrap();

    let update = UpdateClip {
        title: None,
        content: Some("stolen".to_string()),
        content_type: None,
        language: None,
        access_type: None,
        expires_at: None,
        tags: None,
    };
    // owner mismatch: the stored clip is untouched, and the lookup step
    // still answers with the clip of that id, as stored
    let c = clips.update_clip(1, 2, &update).unwrap();
    assert_eq!(c.content, "mine");
}

#[test]
fn delete_is_soft_and_scoped_to_owner() {
    let mut clips = ClipRepository::new();
    clips.create_clip(1, &minimal_clip("hello"), 100).unwrap();

    clips.delete_clip(1, 2, 200);
    assert!(clips.find_by_id(1).is_ok());

    clips.delete_clip(1, 1, 200);
    let e = clips.find_by_id(1).unwrap_err();
    assert_eq!(e, ApiError::NotFound);
    assert_eq!(clips.clips.len(), 1);
    assert_eq!(clips.clips[0].deleted_at, Some(200));
}

#[test]
fn pagination_is_newest_first() {
    let mut clips = ClipRepository::new();
    for k in 1..=5i64 {
        clips.create_clip(1, &minimal_clip(&format!("clip {}", k)), 100 + k).unwrap();
    }
    clips.create_clip(2, &minimal_clip("someone else's"), 200).unwrap();

    let page = |p: i64, s: i64| Pagination { page: Some(p), page_size: Some(s) };

    let first = get_user_clips(&clips, &page(1, 2), 1).unwrap();
    assert_eq!(first.iter().map(|c| c.id).collect::<Vec<_>>(), vec![5, 4]);
    let second = get_user_clips(&clips, &page(2, 2), 1).unwrap();
    assert_eq!(second.iter().map(|c| c.id).collect::<Vec<_>>(), vec![3, 2]);
    let third = get_user_clips(&clips, &page(3, 2), 1).unwrap();
    assert_eq!(third.iter().map(|c| c.id).collect::<Vec<_>>(), vec![1]);
    let fourth = get_user_clips(&clips, &page(4, 2), 1).unwrap();
    assert!(fourth.is_empty());

    let defaults = get_user_clips(&clips, &Pagination { page: None, page_size: None }, 1).unwrap();
    assert_eq!(defaults.len(), 5);

    let huge_page = get_user_clips(&clips, &page(i64::MAX, 100), 1).unwrap();
    assert!(huge_page.is_empty());
}

#[test]
fn pagination_bounds_are_enforced() {
    let clips = ClipRepository::new();
    for p in [
        Pagination { page: Some(0), page_size: Some(10) },
        Pagination { page: Some(1), page_size: Some(0) },
        Pagination { page: Some(1), page_size: Some(101) },
        Pagination { page: Some(-5), page_size: None },
    ] {
        let e = get_user_clips(&clips, &p, 1).unwrap_err();
        assert_eq!(e, ApiError::InvalidPagination);
        assert_eq!(error_status(&e), 400);
    }
}

#[test]
fn deleted_clips_leave_the_listing() {
    let mut clips = ClipRepository::new();
    for k in 1..=3i64 {
        clips.create_clip(1, &minimal_clip(&format!("clip {}", k)), 100 + k).unwrap();
    }
    clips.delete_clip(2, 1, 500);
    let listing = get_user_clips(&clips, &Pagination { page: None, page_size: None }, 1).unwrap();
    assert_eq!(listing.iter().map(|c| c.id).collect::<Vec<_>>(), vec![3, 1]);
}
