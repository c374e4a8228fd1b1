//! The file picker under the prompt: an index of the project's files, a
//! ranked filter over it and a scrolling selection.

use vstd::prelude::*;
use crate::text::has_sub;
use crate::text::contains_text;

verus! {

/// The lower-case form of a text, in Unicode's sense.
pub uninterp spec fn lower_of(s: Seq<char>) -> Seq<char>;

/// Relies on `str::to_lowercase`: Unicode lower-casing, a function of the
/// text alone.
#[verifier::external_body]
pub(crate) fn to_lower(s: &str) -> (r: String)
    ensures
        r@ == lower_of(s@),
{
    s.to_lowercase()
}

/// `a` orders before or equal to `b`, character by character, as `String`'s
/// `Ord` compares (its UTF-8 bytes order as the code points do).
pub open spec fn text_le(a: Seq<char>, b: Seq<char>) -> bool
    decreases a.len(),
{
    if a.len() == 0 {
        true
    } else if b.len() == 0 {
        false
    } else if a[0] != b[0] {
        (a[0] as u32) < (b[0] as u32)
    } else {
        text_le(a.drop_first(), b.drop_first())
    }
}

/// Relies on `slice::sort` over `String`: the same strings, in ascending
/// order.
#[verifier::external_body]
fn sort_texts(v: Vec<String>) -> (r: Vec<String>)
    ensures
        r@.to_multiset() == v@.to_multiset(),
        forall|i: int, j: int| 0 <= i < j < r@.len() ==> text_le(#[trigger] r@[i]@, #[trigger] r@[j]@),
{
    let mut v = v;
    v.sort();
    v
}

/// The part of a path after its last `/`.
pub open spec fn last_segment(s: Seq<char>) -> Seq<char>
    decreases s.len(),
{
    if s.len() == 0 {
        s
    } else if s.last() == '/' {
        Seq::empty()
    } else {
        last_segment(s.drop_last()).push(s.last())
    }
}

pub open spec fn starts_with(s: Seq<char>, p: Seq<char>) -> bool {
    p.len() <= s.len() && s.subrange(0, p.len() as int) == p
}

/// The file's name starts with the lower-cased needle.
pub open spec fn name_hit(p: Seq<char>, needle: Seq<char>) -> bool {
    starts_with(last_segment(lower_of(p)), needle)
}

/// The path holds the needle elsewhere.
pub open spec fn path_hit(p: Seq<char>, needle: Seq<char>) -> bool {
    !name_hit(p, needle) && has_sub(lower_of(p), needle)
}

pub open spec fn name_hits(files: Seq<String>, needle: Seq<char>) -> Seq<String>
    decreases files.len(),
{
    if files.len() == 0 {
        Seq::empty()
    } else if name_hit(files.last()@, needle) {
        name_hits(files.drop_last(), needle).push(files.last())
    } else {
        name_hits(files.drop_last(), needle)
    }
}

pub open spec fn path_hits(files: Seq<String>, needle: Seq<char>) -> Seq<String>
    decreases files.len(),
{
    if files.len() == 0 {
        Seq::empty()
    } else if path_hit(files.last()@, needle) {
        path_hits(files.drop_last(), needle).push(files.last())
    } else {
        path_hits(files.drop_last(), needle)
    }
}

/// Files whose name starts with the needle, then files whose path holds it,
/// each group in index order; at most the cap.
pub open spec fn ranked(files: Seq<String>, needle: Seq<char>) -> Seq<String> {
    let all = name_hits(files, needle) + path_hits(files, needle);
    if all.len() <= 500 { all } else { all.take(500) }
}

pub(crate) fn segment_after_slash(s: &str) -> (r: String)
    ensures
        r@ == last_segment(s@),
{
    let n = s.unicode_len();
    let mut k = n;
    proof {
        assert(s@.subrange(0, n as int) =~= s@);
    }
    while k > 0 && s.get_char(k - 1) != '/'
        invariant
            k <= n,
            n == s@.len(),
            last_segment(s@) == last_segment(s@.subrange(0, k as int)) + s@.subrange(k as int, n as int),
        decreases k,
    {
        proof {
            let pre = s@.subrange(0, k as int);
            assert(pre.drop_last() =~= s@.subrange(0, k - 1));
            assert(s@.subrange(k - 1, n as int) =~= seq![pre.last()] + s@.subrange(k as int, n as int));
            assert(last_segment(pre) == last_segment(pre.drop_last()).push(pre.last()));
            assert(last_segment(pre.drop_last()).push(pre.last()) + s@.subrange(k as int, n as int)
                =~= last_segment(pre.drop_last()) + s@.subrange(k - 1, n as int));
        }
        k -= 1;
    }
    proof {
        let pre = s@.subrange(0, k as int);
        assert(last_segment(pre) =~= Seq::<char>::empty());
        assert(last_segment(s@) =~= s@.subrange(k as int, n as int));
    }
    String::from_str(s.substring_char(k, n))
}

fn text_starts_with(s: &str, p: &str) -> (r: bool)
    ensures
        r == starts_with(s@, p@),
{
    let n = p.unicode_len();
    if n > s.unicode_len() {
        return false;
    }
    let mut i: usize = 0;
    while i < n
        invariant
            n == p@.len(),
            n <= s@.len(),
            i <= n,
            forall|j: int| 0 <= j < i ==> s@[j] == p@[j],
        decreases n - i,
    {
        if s.get_char(i) != p.get_char(i) {
            assert(s@.subrange(0, n as int)[i as int] != p@[i as int]);
            return false;
        }
        i += 1;
    }
    assert(s@.subrange(0, n as int) =~= p@);
    true
}

/// The file picker's state.
pub struct FileNav {
    pub all_files: Option<Vec<String>>,
    pub visible: bool,
    pub filtered: Vec<String>,
    pub selected: usize,
    pub filter_text: String,
    pub max_lines: u16,
    pub view_offset: usize,
}

impl FileNav {
    /// The picker's invariant: the selection lies in the list (or at 0 when
    /// it is empty), and the list and the window's start are capped.
    pub open spec fn wf(&self) -> bool {
        &&& self.filtered@.len() <= 500
        &&& self.max_lines == 8
        &&& self.view_offset <= 500
        &&& (self.selected == 0 || self.selected < self.filtered@.len())
    }

    /// The first row of the visible window.
    pub open spec fn offset(&self) -> usize {
        self.view_offset
    }

    /// How many rows the picker shows at most.
    pub open spec fn page(&self) -> usize {
        self.max_lines as usize
    }

    /// The index, once it is built.
    pub open spec fn index(&self) -> Option<Seq<String>> {
        match self.all_files {
            Some(v) => Some(v@),
            None => None,
        }
    }

    pub open spec fn showing(&self) -> bool {
        self.visible && self.filtered@.len() > 0
    }

    pub fn new() -> (r: FileNav)
        ensures
            r.wf(),
            !r.visible,
            r.filtered@.len() == 0,
            r.selected == 0,
            r.filter_text@.len() == 0,
            r.offset() == 0,
            r.page() == 8,
            r.index() is None,
    {
        FileNav {
            all_files: None,
            visible: false,
            filtered: Vec::new(),
            selected: 0,
            filter_text: String::new(),
            max_lines: 8,
            view_offset: 0,
        }
    }

    /// Whether the file index still has to be built.
    pub fn needs_index(&self) -> (r: bool)
        ensures
            r == self.index() is None,
    {
        self.all_files.is_none()
    }

    /// Installs the index from the walked paths, sorted; an index already
    /// built is kept.
    pub fn set_index(&mut self, files: Vec<String>)
        requires
            old(self).wf(),
        ensures
            final(self).wf(),
            old(self).index() is Some ==> final(self).index() == old(self).index(),
            old(self).index() is None ==> (final(self).index() matches Some(v)
                && v.to_multiset() == files@.to_multiset()
                && forall|i: int, j: int| 0 <= i < j < v.len() ==> text_le(#[trigger] v[i]@, #[trigger] v[j]@)),
    {
        if self.all_files.is_some() {
            return;
        }
        self.all_files = Some(sort_texts(files));
    }

    pub fn close(&mut self)
        requires
            old(self).wf(),
        ensures
            final(self).wf(),
            !final(self).visible,
            final(self).filtered@.len() == 0,
            final(self).filter_text@.len() == 0,
            final(self).selected == 0,
            final(self).offset() == 0,
            final(self).index() == old(self).index(),
    {
        self.visible = false;
        self.filtered = Vec::new();
        self.filter_text = String::new();
        self.selected = 0;
        self.view_offset = 0;
    }

    pub fn is_showing(&self) -> (r: bool)
        ensures
            r == self.showing(),
    {
        self.visible && self.filtered.len() > 0
    }

    /// Filters the index by `prefix`, case-insensitively: files whose name
    /// starts with it first, then files whose path holds it; the selection
    /// goes back to the top and the picker shows if anything matched.
    pub fn update_filter(&mut self, prefix: &str)
        requires
            old(self).wf(),
        ensures
            final(self).wf(),
            final(self).filter_text@ == prefix@,
            final(self).filtered@ == ranked(
                match old(self).index() { Some(v) => v, None => Seq::empty() },
                lower_of(prefix@),
            ),
            final(self).selected == 0,
            final(self).offset() == 0,
            final(self).visible == (final(self).filtered@.len() > 0),
            final(self).index() == old(self).index(),
    {
        self.filter_text = String::from_str(prefix);
        let needle = to_lower(prefix);
        let empty: Vec<String> = Vec::new();
        let all = match &self.all_files {
            Some(v) => v,
            None => &empty,
        };
        let mut starts: Vec<String> = Vec::new();
        let mut contains: Vec<String> = Vec::new();
        let mut i: usize = 0;
        while i < all.len()
            invariant
                i <= all@.len(),
                starts@ == name_hits(all@.subrange(0, i as int), needle@),
                contains@ == path_hits(all@.subrange(0, i as int), needle@),
            decreases all@.len() - i,
        {
            let p = &all[i];
            let lower = to_lower(p.as_str());
            let fname = segment_after_slash(lower.as_str());
            proof {
                let pre = all@.subrange(0, i + 1);
                assert(pre.drop_last() =~= all@.subrange(0, i as int));
                assert(pre.last() == all@[i as int]);
            }
            if text_starts_with(fname.as_str(), needle.as_str()) {
                starts.push(p.clone());
            } else if contains_text(lower.as_str(), needle.as_str()) {
                contains.push(p.clone());
            }
            i += 1;
        }
        proof {
            assert(all@.subrange(0, all@.len() as int) =~= all@);
        }
        let mut combined: Vec<String> = Vec::new();
        let ghost joined = starts@ + contains@;
        let total = if starts.len() < 500 { starts.len() } else { 500 };
        let mut k: usize = 0;
        while k < total
            invariant
                total <= starts@.len(),
                total <= 500,
                k <= total,
                combined@ == joined.subrange(0, k as int),
                joined == starts@ + contains@,
            decreases total - k,
        {
            combined.push(starts[k].clone());
            proof {
                assert(combined@ =~= joined.subrange(0, k + 1));
            }
            k += 1;
        }
        let mut m: usize = 0;
        while m < contains.len() && combined.len() < 500
            invariant
                m <= contains@.len(),
                combined@.len() <= 500,
                combined@.len() <= joined.len(),
                joined == starts@ + contains@,
                combined@ == joined.subrange(0, combined@.len() as int),
                combined@.len() < 500 ==> combined@.len() == starts@.len() + m,
            decreases contains@.len() - m,
        {
            combined.push(contains[m].clone());
            proof {
                assert(combined@ =~= joined.subrange(0, combined@.len() as int));
            }
            m += 1;
        }
        proof {
            if joined.len() <= 500 {
                if combined@.len() < 500 {
                    assert(combined@.len() == joined.len());
                }
                assert(combined@ =~= joined);
            } else {
                assert(combined@ =~= joined.take(500));
            }
        }
        self.visible = combined.len() > 0;
        self.filtered = combined;
        self.selected = 0;
        self.view_offset = 0;
    }

    /// Rows the picker takes: none when hidden, else the list up to a page.
    pub fn height(&self) -> (r: u16)
        requires
            self.wf(),
        ensures
            !self.showing() ==> r == 0,
            self.showing() ==> r as int == if self.filtered@.len() < self.page() { self.filtered@.len() as int } else { self.page() as int },
    {
        if !self.is_showing() {
            return 0;
        }
        let len = self.filtered.len() as u16;
        if len < self.max_lines { len } else { self.max_lines }
    }

    /// Moves the selection up, wrapping to the bottom; the window follows.
    pub fn move_up(&mut self)
        requires
            old(self).wf(),
        ensures
            final(self).wf(),
            final(self).filtered == old(self).filtered,
            final(self).visible == old(self).visible,
            final(self).index() == old(self).index(),
            !old(self).showing() ==> final(self).selected == old(self).selected && final(self).offset() == old(self).offset(),
            old(self).showing() ==> final(self).selected == (if old(self).selected == 0 {
                old(self).filtered@.len() - 1
            } else {
                old(self).selected - 1
            }),
            old(self).showing() ==> final(self).offset() == (if final(self).selected < old(self).offset() {
                final(self).selected
            } else {
                old(self).offset()
            }),
    {
        if !self.is_showing() {
            return;
        }
        if self.selected == 0 {
            self.selected = self.filtered.len() - 1;
        } else {
            self.selected -= 1;
        }
        if self.selected < self.view_offset {
            self.view_offset = self.selected;
        }
    }

    /// Moves the selection down, wrapping to the top; the window follows.
    pub fn move_down(&mut self)
        requires
            old(self).wf(),
        ensures
            final(self).wf(),
            final(self).filtered == old(self).filtered,
            final(self).visible == old(self).visible,
            final(self).index() == old(self).index(),
            !old(self).showing() ==> final(self).selected == old(self).selected && final(self).offset() == old(self).offset(),
            old(self).showing() ==> final(self).selected == (if old(self).selected + 1 >= old(self).filtered@.len() {
                0
            } else {
                old(self).selected + 1
            }),
            old(self).showing() ==> final(self).offset() == (if final(self).selected >= old(self).offset() + old(self).page() {
                final(self).selected + 1 - old(self).page()
            } else {
                old(self).offset() as int
            }),
    {
        if !self.is_showing() {
            return;
        }
        if self.selected + 1 >= self.filtered.len() {
            self.selected = 0;
        } else {
            self.selected += 1;
        }
        let max = self.max_lines as usize;
        if self.selected >= self.view_offset + max {
            self.view_offset = self.selected + 1 - max;
        }
    }

    /// Moves the selection and the window up by a page, stopping at the top.
    pub fn page_up(&mut self)
        requires
            old(self).wf(),
        ensures
            final(self).wf(),
            final(self).filtered == old(self).filtered,
            final(self).visible == old(self).visible,
            final(self).index() == old(self).index(),
            !old(self).showing() ==> final(self).selected == old(self).selected && final(self).offset() == old(self).offset(),
            old(self).showing() ==> final(self).selected == (if old(self).selected >= old(self).page() {
                old(self).selected - old(self).page()
            } else {
                0
            }),
            old(self).showing() ==> final(self).offset() == (if old(self).offset() >= old(self).page() {
                old(self).offset() - old(self).page()
            } else {
                0
            }),
    {
        if !self.is_showing() {
            return;
        }
        let page = self.max_lines as usize;
        if self.selected >= page {
            self.selected -= page;
        } else {
            self.selected = 0;
        }
        if self.view_offset >= page {
            self.view_offset -= page;
        } else {
            self.view_offset = 0;
        }
    }

    /// Moves the selection down by a page, stopping at the bottom; the
    /// window follows without passing the last page.
    pub fn page_down(&mut self)
        requires
            old(self).wf(),
        ensures
            final(self).wf(),
            final(self).filtered == old(self).filtered,
            final(self).visible == old(self).visible,
            final(self).index() == old(self).index(),
            !old(self).showing() ==> final(self).selected == old(self).selected && final(self).offset() == old(self).offset(),
            old(self).showing() ==> final(self).selected == (if old(self).selected + old(self).page() < old(self).filtered@.len() - 1 {
                old(self).selected + old(self).page()
            } else {
                old(self).filtered@.len() - 1
            }),
            old(self).showing() ==> final(self).offset() == (if final(self).selected >= old(self).offset() + old(self).page() {
                if final(self).selected + 1 - old(self).page() < (if old(self).filtered@.len() >= old(self).page() {
                    old(self).filtered@.len() - old(self).page()
                } else {
                    0
                }) {
                    final(self).selected + 1 - old(self).page()
                } else if old(self).filtered@.len() >= old(self).page() {
                    old(self).filtered@.len() - old(self).page()
                } else {
                    0
                }
            } else {
                old(self).offset() as int
            }),
    {
        if !self.is_showing() {
            return;
        }
        let page = self.max_lines as usize;
        let len = self.filtered.len();
        let last = len - 1;
        self.selected = if self.selected + page < last { self.selected + page } else { last };
        let max = self.max_lines as usize;
        if self.selected >= self.view_offset + max {
            let desired = self.selected + 1 - max;
            let bound = if len >= max { len - max } else { 0 };
            self.view_offset = if desired < bound { desired } else { bound };
        }
    }

    /// The selected path, while the picker shows.
    pub fn selected_value(&self) -> (r: Option<&str>)
        requires
            self.wf(),
        ensures
            !self.showing() ==> r is None,
            self.showing() ==> (r matches Some(s) && s@ == self.filtered@[self.selected as int]@),
    {
        if !self.is_showing() {
            return None;
        }
        Some(self.filtered[self.selected].as_str())
    }
}

} // verus!
