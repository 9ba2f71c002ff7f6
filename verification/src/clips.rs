//! Clip store and the clip endpoint cores: per-user text snippets,
//! addressable by id or short public URL, soft-deleted, paginated
//! newest-first.

use vstd::prelude::*;

verus! {

use crate::crypto::fresh_salt;
use crate::errors::ApiError;
use crate::models::{
    same_clip, clone_opt_string, clone_opt_string_vec, clone_string_vec, ClipContent, CreateClip,
    Pagination, UpdateClip,
};

/// The clip store: clip records with unique ids.
pub struct ClipRepository {
    pub clips: Vec<ClipContent>,
    pub next_id: i64,
}

/// The slice of a listing that one page shows starts here: the page offset,
/// clamped to the listing's length.
pub open spec fn slice_lo(len: int, off: int) -> int {
    if off < len {
        off
    } else {
        len
    }
}

/// The slice of a listing that one page shows ends here: one page past the
/// offset, clamped to the listing's length.
pub open spec fn slice_hi(len: int, off: int, size: int) -> int {
    if off + size < len {
        off + size
    } else {
        len
    }
}

/// The visible (not soft-deleted) clips of one user, newest insertion
/// first: what `find_by_user_id` paginates.
pub open spec fn user_clips_desc(s: Seq<ClipContent>, user_id: int) -> Seq<ClipContent>
    decreases s.len(),
{
    if s.len() == 0 {
        Seq::empty()
    } else {
        let rest = user_clips_desc(s.drop_last(), user_id);
        if s.last().user_id == user_id && s.last().deleted_at is None {
            seq![s.last()] + rest
        } else {
            rest
        }
    }
}

/// A listing never holds more clips than the store does.
pub proof fn lemma_user_clips_desc_len(s: Seq<ClipContent>, user_id: int)
    ensures
        user_clips_desc(s, user_id).len() <= s.len(),
    decreases s.len(),
{
    if s.len() > 0 {
        lemma_user_clips_desc_len(s.drop_last(), user_id);
    }
}

/// Creation stamps never decrease across insertions: what creating every
/// clip from one non-decreasing clock guarantees of the store.
pub open spec fn stamps_nondecreasing(s: Seq<ClipContent>) -> bool {
    forall|i: int, j: int|
        #![trigger s[i], s[j]]
        0 <= i < j < s.len() ==> s[i].created_at <= s[j].created_at
}

/// While creation stamps never decrease across insertions, newest
/// insertion first is exactly `created_at` descending: the listing is
/// sorted by creation stamp, newest first, and bounded by the last stamp.
pub proof fn lemma_listing_sorted_by_created_at(s: Seq<ClipContent>, user_id: int)
    requires
        stamps_nondecreasing(s),
    ensures
        forall|a: int, b: int|
            #![trigger user_clips_desc(s, user_id)[a], user_clips_desc(s, user_id)[b]]
            0 <= a < b < user_clips_desc(s, user_id).len() ==> user_clips_desc(s, user_id)[a].created_at
                >= user_clips_desc(s, user_id)[b].created_at,
        forall|a: int|
            0 <= a < user_clips_desc(s, user_id).len() ==> s.len() > 0 && (
            #[trigger] user_clips_desc(s, user_id)[a]).created_at <= s.last().created_at,
    decreases s.len(),
{
    if s.len() > 0 {
        let sp = s.drop_last();
        let rest = user_clips_desc(sp, user_id);
        let d = user_clips_desc(s, user_id);
        lemma_listing_sorted_by_created_at(sp, user_id);
        assert forall|a: int| 0 <= a < rest.len() implies rest[a].created_at
            <= s.last().created_at by {
            assert(rest[a].created_at <= sp.last().created_at);
            assert(sp.last() == s[s.len() - 2]);
        }
        if s.last().user_id == user_id && s.last().deleted_at is None {
            assert(d == seq![s.last()] + rest);
            assert forall|a: int| 0 <= a < d.len() implies d[a].created_at
                <= s.last().created_at by {
                if a > 0 {
                    assert(d[a] == rest[a - 1]);
                }
            }
            assert forall|a: int, b: int| 0 <= a < b < d.len() implies d[a].created_at
                >= d[b].created_at by {
                assert(d[b] == rest[b - 1]);
                if a > 0 {
                    assert(d[a] == rest[a - 1]);
                }
            }
        }
    }
}

/// How an update request changes one stored clip: `title`, `content`,
/// `content_type`, `access_type` and `tags` keep the stored value when the
/// request leaves them out; `language` and `expires_at` are overwritten
/// unconditionally; everything else is untouched.
pub open spec fn clip_updated(o: ClipContent, n: ClipContent, d: UpdateClip) -> bool {
    &&& n.id == o.id
    &&& n.user_id == o.user_id
    &&& n.title == (match d.title {
        Some(_) => d.title,
        None => o.title,
    })
    &&& n.content == (match d.content {
        Some(c) => c,
        None => o.content,
    })
    &&& n.content_type == (match d.content_type {
        Some(c) => c,
        None => o.content_type,
    })
    &&& n.language == d.language
    &&& n.is_encrypted == o.is_encrypted
    &&& n.encryption_key == o.encryption_key
    &&& n.access_type == (match d.access_type {
        Some(a) => a,
        None => o.access_type,
    })
    &&& n.view_count == o.view_count
    &&& n.expires_at == d.expires_at
    &&& n.short_url == o.short_url
    &&& (match d.tags {
        Some(x) => n.tags matches Some(y) && y@ == x@,
        None => n.tags == o.tags,
    })
    &&& n.created_at == o.created_at
    &&& n.updated_at == o.updated_at
    &&& n.deleted_at == o.deleted_at
}

impl ClipRepository {
    /// Well-formedness: ids are unique and below `next_id`.
    pub open spec fn wf(self) -> bool {
        &&& 1 <= self.next_id
        &&& forall|i: int|
            0 <= i < self.clips@.len() ==> 1 <= #[trigger] self.clips@[i].id < self.next_id
        &&& forall|i: int, j: int|
            #![trigger self.clips@[i], self.clips@[j]]
            0 <= i < j < self.clips@.len() ==> self.clips@[i].id != self.clips@[j].id
    }

    /// Some visible (not soft-deleted) clip carries this id.
    pub open spec fn has_visible_id(self, id: int) -> bool {
        exists|i: int|
            0 <= i < self.clips@.len() && (#[trigger] self.clips@[i]).id == id
                && self.clips@[i].deleted_at is None
    }

    /// Some visible clip carries this short URL and has not passed its
    /// expiry instant.
    pub open spec fn has_live_short_url(self, url: Seq<char>, now: int) -> bool {
        exists|i: int|
            #![trigger self.clips@[i]]
            0 <= i < self.clips@.len() && ({
                &&& self.clips@[i].short_url matches Some(u)
                &&& u@ == url
                &&& self.clips@[i].deleted_at is None
                &&& (match self.clips@[i].expires_at {
                    Some(e) => now < e,
                    None => true,
                })
            })
    }

    /// An empty store.
    pub fn new() -> (r: ClipRepository)
        ensures
            r.wf(),
            r.clips@.len() == 0,
            r.next_id == 1,
    {
        ClipRepository { clips: Vec::new(), next_id: 1 }
    }

    /// Creates a clip with the next id: absent request fields take their
    /// documented defaults (`"text"` content type, `"private"` access, not
    /// encrypted), a fresh 8-character short URL is drawn, the view counter
    /// starts at zero, and the record is appended visible.
    pub fn create_clip(&mut self, user_id: i64, clip_data: &CreateClip, now: i64) -> (r: Result<
        ClipContent,
        ApiError,
    >)
        requires
            old(self).wf(),
        ensures
            final(self).wf(),
            r is Err <==> old(self).next_id == i64::MAX,
            r matches Err(e) ==> e == ApiError::InternalFailure && *final(self) == *old(self),
            r matches Ok(c) ==> {
                &&& final(self).clips@.len() == old(self).clips@.len() + 1
                &&& (forall|i: int|
                    0 <= i < old(self).clips@.len() ==> #[trigger] final(self).clips@[i] == old(
                        self,
                    ).clips@[i])
                &&& same_clip(final(self).clips@.last(), c)
                &&& final(self).next_id == old(self).next_id + 1
                &&& c.id == old(self).next_id
                &&& c.user_id == user_id
                &&& c.title == clip_data.title
                &&& c.content == clip_data.content
                &&& c.content_type@ == (match clip_data.content_type {
                    Some(s) => s@,
                    None => "text"@,
                })
                &&& c.language == clip_data.language
                &&& c.is_encrypted == (match clip_data.is_encrypted {
                    Some(true) => 1i8,
                    _ => 0i8,
                })
                &&& c.encryption_key is None
                &&& c.access_type@ == (match clip_data.access_type {
                    Some(s) => s@,
                    None => "private"@,
                })
                &&& c.view_count == 0
                &&& c.expires_at == clip_data.expires_at
                &&& c.short_url matches Some(u) && u@.len() == 8
                &&& (match (c.tags, clip_data.tags) {
                    (Some(x), Some(y)) => x@ == y@,
                    (None, None) => true,
                    _ => false,
                })
                &&& c.created_at == now
                &&& c.updated_at == now
                &&& c.deleted_at is None
            },
    {
        if self.next_id == i64::MAX {
            return Err(ApiError::InternalFailure);
        }
        let url_source = fresh_salt();
        let short_url = url_source.as_str().substring_ascii(0, 8).to_owned();
        let c = ClipContent {
            id: self.next_id,
            user_id,
            title: clone_opt_string(&clip_data.title),
            content: clip_data.content.clone(),
            content_type: match &clip_data.content_type {
                Some(s) => s.clone(),
                None => "text".to_owned(),
            },
            language: clone_opt_string(&clip_data.language),
            is_encrypted: match clip_data.is_encrypted {
                Some(true) => 1,
                _ => 0,
            },
            encryption_key: None,
            access_type: match &clip_data.access_type {
                Some(s) => s.clone(),
                None => "private".to_owned(),
            },
            view_count: 0,
            expires_at: clip_data.expires_at,
            short_url: Some(short_url),
            tags: clone_opt_string_vec(&clip_data.tags),
            created_at: now,
            updated_at: now,
            deleted_at: None,
        };
        let result = c.duplicate();
        self.clips.push(c);
        self.next_id = self.next_id + 1;
        Ok(result)
    }

    /// Looks a clip up by id; soft-deleted clips answer like missing ones.
    pub fn find_by_id(&self, id: i64) -> (r: Result<ClipContent, ApiError>)
        ensures
            r matches Ok(c) ==> (exists|i: int|
                0 <= i < self.clips@.len() && same_clip(#[trigger] self.clips@[i], c)) && c.id == id
                && c.deleted_at is None,
            r is Err <==> !self.has_visible_id(id as int),
            r matches Err(e) ==> e == ApiError::NotFound,
    {
        let n = self.clips.len();
        let mut i: usize = 0;
        while i < n
            invariant
                n == self.clips@.len(),
                i <= n,
                forall|j: int|
                    0 <= j < i ==> !((#[trigger] self.clips@[j]).id == id
                        && self.clips@[j].deleted_at is None),
            decreases n - i,
        {
            if self.clips[i].id == id && self.clips[i].deleted_at.is_none() {
                return Ok(self.clips[i].duplicate());
            }
            i = i + 1;
        }
        Err(ApiError::NotFound)
    }

    /// Looks a clip up by short URL; soft-deleted clips and clips past
    /// their expiry instant answer like missing ones.
    pub fn find_by_short_url(&self, short_url: &String, now: i64) -> (r: Result<
        ClipContent,
        ApiError,
    >)
        ensures
            r matches Ok(c) ==> (exists|i: int|
                0 <= i < self.clips@.len() && same_clip(#[trigger] self.clips@[i], c)) && (
            c.short_url matches Some(u) && u@ == short_url@) && c.deleted_at is None && (match c.expires_at {
                Some(e) => now < e,
                None => true,
            }),
            r is Err <==> !self.has_live_short_url(short_url@, now as int),
            r matches Err(e) ==> e == ApiError::NotFound,
    {
        let n = self.clips.len();
        let mut i: usize = 0;
        while i < n
            invariant
                n == self.clips@.len(),
                i <= n,
                forall|j: int|
                    0 <= j < i ==> !((#[trigger] self.clips@[j]).short_url matches Some(u) && u@
                        == short_url@ && self.clips@[j].deleted_at is None && (
                    match self.clips@[j].expires_at {
                        Some(e) => now < e,
                        None => true,
                    })),
            decreases n - i,
        {
            let candidate = match &self.clips[i].short_url {
                Some(u) => *u == *short_url,
                None => false,
            };
            if candidate && self.clips[i].deleted_at.is_none() {
                let live = match self.clips[i].expires_at {
                    Some(e) => now < e,
                    None => true,
                };
                if live {
                    return Ok(self.clips[i].duplicate());
                }
            }
            i = i + 1;
        }
        Err(ApiError::NotFound)
    }

    /// One page of a user's visible clips, newest insertion first: skips
    /// `(page - 1) * page_size` entries of the listing, then yields up to
    /// `page_size` of them. Newest insertion first is `created_at`
    /// descending whenever the creation stamps never decreased across
    /// insertions, and the page is then sorted by creation stamp.
    pub fn find_by_user_id(&self, user_id: i64, page: i64, page_size: i64) -> (r: Vec<ClipContent>)
        requires
            1 <= page,
            1 <= page_size <= 100,
        ensures
            ({
                let desc = user_clips_desc(self.clips@, user_id as int);
                let off = (page - 1) * page_size;
                let lo = slice_lo(desc.len() as int, off);
                let hi = slice_hi(desc.len() as int, off, page_size as int);
                &&& r@.len() == hi - lo
                &&& (forall|k: int|
                    0 <= k < hi - lo ==> same_clip(desc[lo + k], #[trigger] r@[k]))
            }),
            stamps_nondecreasing(self.clips@) ==> (forall|a: int, b: int|
                #![trigger r@[a], r@[b]]
                0 <= a < b < r@.len() ==> r@[a].created_at >= r@[b].created_at),
    {
        let ghost desc = user_clips_desc(self.clips@, user_id as int);
        let total = self.clips.len();
        proof {
            lemma_user_clips_desc_len(self.clips@, user_id as int);
        }
        let psize: u64 = page_size as u64;
        let pm1: u64 = (page - 1) as u64;
        if pm1 > u64::MAX / psize {
            proof {
                let q = u64::MAX as int / psize as int;
                let rm = u64::MAX as int % psize as int;
                vstd::arithmetic::div_mod::lemma_fundamental_div_mod(u64::MAX as int, psize as int);
                vstd::arithmetic::div_mod::lemma_mod_bound(u64::MAX as int, psize as int);
                assert(pm1 as int * psize as int > u64::MAX as int) by (nonlinear_arith)
                    requires
                        pm1 as int >= q + 1,
                        0 < psize as int,
                        u64::MAX as int == (psize as int) * q + rm,
                        0 <= rm < psize as int,
                ;
                assert(desc.len() <= self.clips@.len());
                assert(desc.len() < (page - 1) * page_size);
            }
            return Vec::new();
        }
        proof {
            let q = u64::MAX as int / psize as int;
            let rm = u64::MAX as int % psize as int;
            vstd::arithmetic::div_mod::lemma_fundamental_div_mod(u64::MAX as int, psize as int);
            vstd::arithmetic::div_mod::lemma_mod_bound(u64::MAX as int, psize as int);
            assert(pm1 as int * psize as int <= u64::MAX as int) by (nonlinear_arith)
                requires
                    pm1 as int <= q,
                    0 < psize as int,
                    u64::MAX as int == (psize as int) * q + rm,
                    0 <= rm < psize as int,
            ;
        }
        let off: u64 = pm1 * psize;
        let mut r: Vec<ClipContent> = Vec::new();
        let mut skipped: u64 = 0;
        let mut taken: u64 = 0;
        let ghost mut produced: Seq<ClipContent> = Seq::empty();
        let mut i: usize = total;
        proof {
            assert(self.clips@.subrange(0, i as int) =~= self.clips@);
        }
        while i > 0
            invariant
                i <= self.clips@.len(),
                off == (page - 1) * page_size,
                1 <= page_size <= 100,
                psize == page_size,
                desc == user_clips_desc(self.clips@, user_id as int),
                desc == produced + user_clips_desc(
                    self.clips@.subrange(0, i as int),
                    user_id as int,
                ),
                desc.len() <= self.clips@.len(),
                produced.len() <= desc.len(),
                skipped as int == slice_lo(produced.len() as int, off as int),
                taken as int == slice_hi(produced.len() as int, off as int, page_size as int)
                    - slice_lo(produced.len() as int, off as int),
                r@.len() == taken,
                forall|k: int|
                    0 <= k < r@.len() ==> same_clip(produced[off as int + k], #[trigger] r@[k]),
            decreases i,
        {
            let idx = i - 1;
            proof {
                assert(self.clips@.subrange(0, i as int).drop_last() =~= self.clips@.subrange(
                    0,
                    idx as int,
                ));
                assert(self.clips@.subrange(0, i as int).last() == self.clips@[idx as int]);
                lemma_user_clips_desc_len(self.clips@.subrange(0, idx as int), user_id as int);
            }
            if self.clips[idx].user_id == user_id && self.clips[idx].deleted_at.is_none() {
                proof {
                    produced = produced.push(self.clips@[idx as int]);
                    assert(produced =~= produced.drop_last().push(self.clips@[idx as int]));
                    assert(desc =~= produced + user_clips_desc(
                        self.clips@.subrange(0, idx as int),
                        user_id as int,
                    ));
                }
                if skipped < off {
                    skipped = skipped + 1;
                } else if taken < psize {
                    r.push(self.clips[idx].duplicate());
                    taken = taken + 1;
                }
            }
            i = idx;
        }
        proof {
            assert(self.clips@.subrange(0, 0) =~= Seq::<ClipContent>::empty());
            assert(desc =~= produced);
            if stamps_nondecreasing(self.clips@) {
                lemma_listing_sorted_by_created_at(self.clips@, user_id as int);
                assert forall|a: int, b: int| 0 <= a < b < r@.len() implies r@[a].created_at
                    >= r@[b].created_at by {
                    assert(same_clip(desc[off as int + a], r@[a]));
                    assert(same_clip(desc[off as int + b], r@[b]));
                    assert(desc[off as int + a].created_at >= desc[off as int + b].created_at);
                }
            }
        }
        r
    }

    /// Applies an update request to the clip matching both the id and the
    /// owner — soft-deleted or not, exactly as stored — then answers with
    /// the visible clip of that id, whoever owns it, or `NotFound`. A clip
    /// owned by someone else is returned unmodified.
    pub fn update_clip(&mut self, id: i64, user_id: i64, clip_data: &UpdateClip) -> (r: Result<
        ClipContent,
        ApiError,
    >)
        requires
            old(self).wf(),
        ensures
            final(self).wf(),
            final(self).next_id == old(self).next_id,
            final(self).clips@.len() == old(self).clips@.len(),
            forall|i: int|
                #![trigger final(self).clips@[i]]
                0 <= i < old(self).clips@.len() ==> if old(self).clips@[i].id == id && old(
                    self,
                ).clips@[i].user_id == user_id {
                    clip_updated(old(self).clips@[i], final(self).clips@[i], *clip_data)
                } else {
                    final(self).clips@[i] == old(self).clips@[i]
                },
            r matches Ok(c) ==> (exists|i: int|
                0 <= i < final(self).clips@.len() && same_clip(#[trigger] final(self).clips@[i], c))
                && c.id == id && c.deleted_at is None,
            r is Err <==> !final(self).has_visible_id(id as int),
            r matches Err(e) ==> e == ApiError::NotFound,
    {
        let n = self.clips.len();
        let mut i: usize = 0;
        while i < n
            invariant
                old(self).wf(),
                n == old(self).clips@.len(),
                i <= n,
                self.next_id == old(self).next_id,
                self.clips@.len() == old(self).clips@.len(),
                forall|j: int|
                    #![trigger self.clips@[j]]
                    i <= j < n ==> self.clips@[j] == old(self).clips@[j],
                forall|j: int|
                    #![trigger self.clips@[j]]
                    0 <= j < i ==> if old(self).clips@[j].id == id && old(self).clips@[j].user_id
                        == user_id {
                        clip_updated(old(self).clips@[j], self.clips@[j], *clip_data)
                    } else {
                        self.clips@[j] == old(self).clips@[j]
                    },
            decreases n - i,
        {
            if self.clips[i].id == id && self.clips[i].user_id == user_id {
                if clip_data.title.is_some() {
                    self.clips[i].title = clone_opt_string(&clip_data.title);
                }
                match &clip_data.content {
                    Some(c) => {
                        self.clips[i].content = c.clone();
                    },
                    None => {},
                }
                match &clip_data.content_type {
                    Some(c) => {
                        self.clips[i].content_type = c.clone();
                    },
                    None => {},
                }
                self.clips[i].language = clone_opt_string(&clip_data.language);
                match &clip_data.access_type {
                    Some(a) => {
                        self.clips[i].access_type = a.clone();
                    },
                    None => {},
                }
                self.clips[i].expires_at = clip_data.expires_at;
                match &clip_data.tags {
                    Some(t) => {
                        self.clips[i].tags = Some(clone_string_vec(t));
                    },
                    None => {},
                }
            }
            i = i + 1;
        }
        proof {
            assert forall|a: int, b: int|
                #![trigger self.clips@[a], self.clips@[b]]
                0 <= a < b < self.clips@.len() implies self.clips@[a].id != self.clips@[b].id by {
                assert(self.clips@[a].id == old(self).clips@[a].id);
                assert(self.clips@[b].id == old(self).clips@[b].id);
            }
            assert forall|a: int|
                0 <= a < self.clips@.len() implies 1 <= (#[trigger] self.clips@[a]).id
                < self.next_id by {
                assert(self.clips@[a].id == old(self).clips@[a].id);
            }
        }
        self.find_by_id(id)
    }

    /// Soft deletion: stamps `deleted_at = now` on the clip matching both
    /// the id and the owner. Nothing is reported back, matching or not.
    pub fn delete_clip(&mut self, id: i64, user_id: i64, now: i64)
        requires
            old(self).wf(),
        ensures
            final(self).wf(),
            final(self).next_id == old(self).next_id,
            final(self).clips@.len() == old(self).clips@.len(),
            forall|i: int|
                #![trigger final(self).clips@[i]]
                0 <= i < old(self).clips@.len() ==> if old(self).clips@[i].id == id && old(
                    self,
                ).clips@[i].user_id == user_id {
                    final(self).clips@[i] == (ClipContent {
                        deleted_at: Some(now),
                        ..old(self).clips@[i]
                    })
                } else {
                    final(self).clips@[i] == old(self).clips@[i]
                },
    {
        let n = self.clips.len();
        let mut i: usize = 0;
        while i < n
            invariant
                old(self).wf(),
                n == old(self).clips@.len(),
                i <= n,
                self.next_id == old(self).next_id,
                self.clips@.len() == old(self).clips@.len(),
                forall|j: int|
                    #![trigger self.clips@[j]]
                    i <= j < n ==> self.clips@[j] == old(self).clips@[j],
                forall|j: int|
                    #![trigger self.clips@[j]]
                    0 <= j < i ==> if old(self).clips@[j].id == id && old(self).clips@[j].user_id
                        == user_id {
                        self.clips@[j] == (ClipContent {
                            deleted_at: Some(now),
                            ..old(self).clips@[j]
                        })
                    } else {
                        self.clips@[j] == old(self).clips@[j]
                    },
            decreases n - i,
        {
            if self.clips[i].id == id && self.clips[i].user_id == user_id {
                self.clips[i].deleted_at = Some(now);
            }
            i = i + 1;
        }
        proof {
            assert forall|a: int, b: int|
                #![trigger self.clips@[a], self.clips@[b]]
                0 <= a < b < self.clips@.len() implies self.clips@[a].id != self.clips@[b].id by {
                assert(self.clips@[a].id == old(self).clips@[a].id);
                assert(self.clips@[b].id == old(self).clips@[b].id);
            }
            assert forall|a: int|
                0 <= a < self.clips@.len() implies 1 <= (#[trigger] self.clips@[a]).id
                < self.next_id by {
                assert(self.clips@[a].id == old(self).clips@[a].id);
            }
        }
    }

    /// Bumps the view counter (saturating at its maximum) of every clip
    /// with the given id, visible or not; everything else is untouched.
    pub fn increment_view_count(&mut self, id: i64)
        requires
            old(self).wf(),
        ensures
            final(self).wf(),
            final(self).next_id == old(self).next_id,
            final(self).clips@.len() == old(self).clips@.len(),
            forall|i: int|
                #![trigger final(self).clips@[i]]
                0 <= i < old(self).clips@.len() ==> if old(self).clips@[i].id == id {
                    final(self).clips@[i] == (ClipContent {
                        view_count: (if old(self).clips@[i].view_count == i32::MAX {
                            old(self).clips@[i].view_count
                        } else {
                            (old(self).clips@[i].view_count + 1) as i32
                        }),
                        ..old(self).clips@[i]
                    })
                } else {
                    final(self).clips@[i] == old(self).clips@[i]
                },
    {
        let n = self.clips.len();
        let mut i: usize = 0;
        while i < n
            invariant
                old(self).wf(),
                n == old(self).clips@.len(),
                i <= n,
                self.next_id == old(self).next_id,
                self.clips@.len() == old(self).clips@.len(),
                forall|j: int|
                    #![trigger self.clips@[j]]
                    i <= j < n ==> self.clips@[j] == old(self).clips@[j],
                forall|j: int|
                    #![trigger self.clips@[j]]
                    0 <= j < i ==> if old(self).clips@[j].id == id {
                        self.clips@[j] == (ClipContent {
                            view_count: (if old(self).clips@[j].view_count == i32::MAX {
                                old(self).clips@[j].view_count
                            } else {
                                (old(self).clips@[j].view_count + 1) as i32
                            }),
                            ..old(self).clips@[j]
                        })
                    } else {
                        self.clips@[j] == old(self).clips@[j]
                    },
            decreases n - i,
        {
            if self.clips[i].id == id {
                if self.clips[i].view_count < i32::MAX {
                    let c = self.clips[i].view_count;
                    self.clips[i].view_count = c + 1;
                }
            }
            i = i + 1;
        }
        proof {
            assert forall|a: int, b: int|
                #![trigger self.clips@[a], self.clips@[b]]
                0 <= a < b < self.clips@.len() implies self.clips@[a].id != self.clips@[b].id by {
                assert(self.clips@[a].id == old(self).clips@[a].id);
                assert(self.clips@[b].id == old(self).clips@[b].id);
            }
            assert forall|a: int|
                0 <= a < self.clips@.len() implies 1 <= (#[trigger] self.clips@[a]).id
                < self.next_id by {
                assert(self.clips@[a].id == old(self).clips@[a].id);
            }
        }
    }
}

/// The paginated listing endpoint core: validates the pagination parameters
/// (defaults: page 1, 20 per page; refused outside `page >= 1` and
/// `1 <= page_size <= 100`) and answers with one page of the user's clips.
pub fn get_user_clips(clips: &ClipRepository, pagination: &Pagination, user_id: i64) -> (r: Result<
    Vec<ClipContent>,
    ApiError,
>)
    ensures
        ({
            let page = (match pagination.page {
                Some(p) => p,
                None => 1,
            });
            let page_size = (match pagination.page_size {
                Some(s) => s,
                None => 20,
            });
            if page < 1 || page_size < 1 || page_size > 100 {
                r == Err::<Vec<ClipContent>, ApiError>(ApiError::InvalidPagination)
            } else {
                r matches Ok(v) && ({
                    let desc = user_clips_desc(clips.clips@, user_id as int);
                    let off = (page - 1) * page_size;
                    let lo = slice_lo(desc.len() as int, off);
                    let hi = slice_hi(desc.len() as int, off, page_size as int);
                    &&& v@.len() == hi - lo
                    &&& (forall|k: int|
                        0 <= k < hi - lo ==> same_clip(desc[lo + k], #[trigger] v@[k]))
                    &&& (stamps_nondecreasing(clips.clips@) ==> (forall|a: int, b: int|
                        #![trigger v@[a], v@[b]]
                        0 <= a < b < v@.len() ==> v@[a].created_at >= v@[b].created_at))
                })
            }
        }),
{
    let page = match pagination.page {
        Some(p) => p,
        None => 1,
    };
    let page_size = match pagination.page_size {
        Some(s) => s,
        None => 20,
    };
    if page < 1 || page_size < 1 || page_size > 100 {
        return Err(ApiError::InvalidPagination);
    }
    Ok(clips.find_by_user_id(user_id, page, page_size))
}

/// The id lookup endpoint core: answers with the clip as stored, then bumps
/// its view counter (the returned record still shows the count before the
/// bump). A missing or soft-deleted id changes nothing.
pub fn get_clip_by_id(clips: &mut ClipRepository, id: i64) -> (r: Result<ClipContent, ApiError>)
    requires
        old(clips).wf(),
    ensures
        final(clips).wf(),
        r is Err <==> !old(clips).has_visible_id(id as int),
        r matches Err(e) ==> e == ApiError::NotFound && *final(clips) == *old(clips),
        r matches Ok(c) ==> {
            &&& (exists|i: int|
                0 <= i < old(clips).clips@.len() && same_clip(#[trigger] old(clips).clips@[i], c))
            &&& c.id == id
            &&& c.deleted_at is None
            &&& final(clips).clips@.len() == old(clips).clips@.len()
            &&& (forall|i: int|
                #![trigger final(clips).clips@[i]]
                0 <= i < old(clips).clips@.len() ==> if old(clips).clips@[i].id == id {
                    final(clips).clips@[i] == (ClipContent {
                        view_count: (if old(clips).clips@[i].view_count == i32::MAX {
                            old(clips).clips@[i].view_count
                        } else {
                            (old(clips).clips@[i].view_count + 1) as i32
                        }),
                        ..old(clips).clips@[i]
                    })
                } else {
                    final(clips).clips@[i] == old(clips).clips@[i]
                })
        },
{
    let c = match clips.find_by_id(id) {
        Ok(c) => c,
        Err(_) => {
            return Err(ApiError::NotFound);
        },
    };
    clips.increment_view_count(id);
    Ok(c)
}

/// The short-URL lookup endpoint core: answers with the clip as stored,
/// then bumps the view counter of the clip it found. A missing, deleted or
/// expired short URL changes nothing.
pub fn get_clip_by_short_url(clips: &mut ClipRepository, short_url: &String, now: i64) -> (r:
    Result<ClipContent, ApiError>)
    requires
        old(clips).wf(),
    ensures
        final(clips).wf(),
        r is Err <==> !old(clips).has_live_short_url(short_url@, now as int),
        r matches Err(e) ==> e == ApiError::NotFound && *final(clips) == *old(clips),
        r matches Ok(c) ==> {
            &&& (exists|i: int|
                0 <= i < old(clips).clips@.len() && same_clip(#[trigger] old(clips).clips@[i], c))
            &&& (c.short_url matches Some(u) && u@ == short_url@)
            &&& c.deleted_at is None
            &&& (match c.expires_at {
                Some(e) => now < e,
                None => true,
            })
            &&& final(clips).clips@.len() == old(clips).clips@.len()
            &&& (forall|i: int|
                #![trigger final(clips).clips@[i]]
                0 <= i < old(clips).clips@.len() ==> if old(clips).clips@[i].id == c.id {
                    final(clips).clips@[i] == (ClipContent {
                        view_count: (if old(clips).clips@[i].view_count == i32::MAX {
                            old(clips).clips@[i].view_count
                        } else {
                            (old(clips).clips@[i].view_count + 1) as i32
                        }),
                        ..old(clips).clips@[i]
                    })
                } else {
                    final(clips).clips@[i] == old(clips).clips@[i]
                })
        },
{
    let c = match clips.find_by_short_url(short_url, now) {
        Ok(c) => c,
        Err(_) => {
            return Err(ApiError::NotFound);
        },
    };
    clips.increment_view_count(c.id);
    Ok(c)
}

} // verus!
