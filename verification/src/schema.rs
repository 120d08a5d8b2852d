//! What a client sends: the shapes of a create request, of an update
//! request and of the paging options of a list request.

use vstd::prelude::*;

verus! {

/// A request to create a note. Title and content are required.
#[derive(Clone, Debug, PartialEq, Eq)]
pub struct CreateNoteSchema {
    pub title: String,
    pub content: String,
    pub category: Option<String>,
    pub published: Option<bool>,
}

/// What a `CreateNoteSchema` holds.
pub struct CreateView {
    pub title: Seq<char>,
    pub content: Seq<char>,
    pub category: Option<Seq<char>>,
    pub published: Option<bool>,
}

/// What an optional text holds.
pub open spec fn text_view(text: Option<String>) -> Option<Seq<char>> {
    match text {
        Some(t) => Some(t@),
        None => None,
    }
}

impl View for CreateNoteSchema {
    type V = CreateView;

    open spec fn view(&self) -> CreateView {
        CreateView {
            title: self.title@,
            content: self.content@,
            category: text_view(self.category),
            published: self.published,
        }
    }
}

/// A request to change a note. A field that is absent is left as it is.
#[derive(Clone, Debug, PartialEq, Eq)]
pub struct UpdateNoteSchema {
    pub title: Option<String>,
    pub content: Option<String>,
    pub category: Option<String>,
    pub published: Option<bool>,
}

/// What an `UpdateNoteSchema` holds.
pub struct UpdateView {
    pub title: Option<Seq<char>>,
    pub content: Option<Seq<char>>,
    pub category: Option<Seq<char>>,
    pub published: Option<bool>,
}

impl View for UpdateNoteSchema {
    type V = UpdateView;

    open spec fn view(&self) -> UpdateView {
        UpdateView {
            title: text_view(self.title),
            content: text_view(self.content),
            category: text_view(self.category),
            published: self.published,
        }
    }
}

/// A copy of an optional text.
pub fn copy_text(text: &Option<String>) -> (r: Option<String>)
    ensures
        text_view(r) == text_view(*text),
{
    match text {
        Some(t) => Some(t.clone()),
        None => None,
    }
}

impl UpdateNoteSchema {
    /// A copy of this request.
    pub fn duplicate(&self) -> (r: UpdateNoteSchema)
        ensures
            r@ == self@,
    {
        UpdateNoteSchema {
            title: copy_text(&self.title),
            content: copy_text(&self.content),
            category: copy_text(&self.category),
            published: self.published,
        }
    }
}

/// The page size where a list request names none.
pub const DEFAULT_LIMIT: usize = 10;

/// The page where a list request names none.
pub const DEFAULT_PAGE: usize = 1;

/// The paging options of a list request.
#[derive(Clone, Copy, Debug, PartialEq, Eq)]
pub struct FilterOptions {
    pub page: Option<usize>,
    pub limit: Option<usize>,
}

/// Whether a page size and a page number can be served: both are at least
/// one, and the number of notes to skip, `(page - 1) * limit`, fits the
/// store's signed count, as the size does.
pub open spec fn page_in_range(limit: int, page: int) -> bool {
    &&& 1 <= limit <= i64::MAX
    &&& 1 <= page <= i64::MAX
    &&& (page - 1) * limit <= i64::MAX
}

impl FilterOptions {
    /// The page size asked for, ten by default.
    pub open spec fn limit_or_default(&self) -> int {
        match self.limit {
            Some(l) => l as int,
            None => DEFAULT_LIMIT as int,
        }
    }

    /// The page asked for, the first by default.
    pub open spec fn page_or_default(&self) -> int {
        match self.page {
            Some(p) => p as int,
            None => DEFAULT_PAGE as int,
        }
    }

    /// Whether these options can be served.
    pub open spec fn in_range(&self) -> bool {
        page_in_range(self.limit_or_default(), self.page_or_default())
    }

    /// Whether these options can be served.
    pub fn is_in_range(&self) -> (r: bool)
        ensures
            r == self.in_range(),
    {
        let limit: usize = match self.limit {
            Some(l) => l,
            None => DEFAULT_LIMIT,
        };
        let page: usize = match self.page {
            Some(p) => p,
            None => DEFAULT_PAGE,
        };
        if limit < 1 || page < 1 {
            return false;
        }
        if limit as u128 > i64::MAX as u128 || page as u128 > i64::MAX as u128 {
            return false;
        }
        let p: u128 = page as u128 - 1;
        let l: u128 = limit as u128;
        assert(p * l <= 0x7fff_ffff_ffff_ffff * 0x7fff_ffff_ffff_ffff) by (nonlinear_arith)
            requires
                0 <= p <= 0x7fff_ffff_ffff_ffff,
                0 <= l <= 0x7fff_ffff_ffff_ffff,
        ;
        let skip: u128 = p * l;
        skip <= i64::MAX as u128
    }
}

} // verus!
