//! Tray items: status, icon descriptors and full-state snapshots.

use vstd::prelude::*;

verus! {

/// How strongly an item asks to be shown.
#[derive(Clone, Copy, Debug, PartialEq, Eq, Structural)]
pub enum Status {
    Passive,
    Active,
    NeedsAttention,
}

/// The status of an item as the protocol reports it, which may be none of the
/// three it defines.
#[derive(Clone, Copy, Debug, PartialEq, Eq, Structural)]
pub enum ReportedStatus {
    Unknown,
    Passive,
    Active,
    NeedsAttention,
}

/// The status that a reported status stands for: one that the protocol does
/// not define counts as passive.
pub open spec fn status_of(reported: ReportedStatus) -> Status {
    match reported {
        ReportedStatus::Active => Status::Active,
        ReportedStatus::NeedsAttention => Status::NeedsAttention,
        ReportedStatus::Passive => Status::Passive,
        ReportedStatus::Unknown => Status::Passive,
    }
}

impl Status {
    /// The status that a reported status stands for.
    pub fn of(reported: ReportedStatus) -> (status: Status)
        ensures
            status == status_of(reported),
    {
        match reported {
            ReportedStatus::Active => Status::Active,
            ReportedStatus::NeedsAttention => Status::NeedsAttention,
            ReportedStatus::Passive => Status::Passive,
            ReportedStatus::Unknown => Status::Passive,
        }
    }
}

/// One raw icon image: four bytes per pixel, alpha first, then red, green, blue.
#[derive(Clone, Debug, PartialEq, Eq)]
pub struct IconPixmap {
    pub width: i32,
    pub height: i32,
    pub pixels: Vec<u8>,
}

/// Mathematical value of an [`IconPixmap`].
pub struct PixmapView {
    pub width: i32,
    pub height: i32,
    pub pixels: Seq<u8>,
}

impl View for IconPixmap {
    type V = PixmapView;

    open spec fn view(&self) -> PixmapView {
        PixmapView { width: self.width, height: self.height, pixels: self.pixels@ }
    }
}

/// Views of a list of pixmaps, in order.
pub open spec fn pixmaps_view(v: Seq<IconPixmap>) -> Seq<PixmapView> {
    Seq::new(v.len(), |i: int| v[i]@)
}

/// View of an optional text.
pub open spec fn text_view(t: Option<String>) -> Option<Seq<char>> {
    match t {
        Some(s) => Some(s@),
        None => None,
    }
}

/// View of an optional list of pixmaps.
pub open spec fn icons_view(p: Option<Vec<IconPixmap>>) -> Option<Seq<PixmapView>> {
    match p {
        Some(v) => Some(pixmaps_view(v@)),
        None => None,
    }
}

/// The full state of one tray item.
#[derive(Clone, Debug, PartialEq, Eq)]
pub struct TrayItemInfo {
    pub icon_name: Option<String>,
    pub icon_theme_path: Option<String>,
    pub icon_pixmap: Option<Vec<IconPixmap>>,
    pub status: Status,
}

/// Mathematical value of a [`TrayItemInfo`].
pub struct ItemView {
    pub icon_name: Option<Seq<char>>,
    pub icon_theme_path: Option<Seq<char>>,
    pub icon_pixmap: Option<Seq<PixmapView>>,
    pub status: Status,
}

impl View for TrayItemInfo {
    type V = ItemView;

    open spec fn view(&self) -> ItemView {
        ItemView {
            icon_name: text_view(self.icon_name),
            icon_theme_path: text_view(self.icon_theme_path),
            icon_pixmap: icons_view(self.icon_pixmap),
            status: self.status,
        }
    }
}

/// Copies an optional text.
pub fn copy_text(t: &Option<String>) -> (r: Option<String>)
    ensures
        text_view(r) == text_view(*t),
{
    match t {
        Some(s) => Some(s.clone()),
        None => None,
    }
}

/// Whether two optional texts hold the same characters, or both hold none.
pub fn same_optional_text(a: &Option<String>, b: &Option<String>) -> (r: bool)
    ensures
        r == (text_view(*a) == text_view(*b)),
{
    match (a, b) {
        (Some(x), Some(y)) => *x == *y,
        (None, None) => true,
        _ => false,
    }
}

impl IconPixmap {
    /// Whether two images have the same size and the same bytes.
    pub fn same_as(&self, other: &IconPixmap) -> (r: bool)
        ensures
            r == (self@ == other@),
    {
        if self.width != other.width || self.height != other.height || self.pixels.len()
            != other.pixels.len() {
            return false;
        }
        let mut i: usize = 0;
        while i < self.pixels.len()
            invariant
                i <= self.pixels.len(),
                self.pixels.len() == other.pixels.len(),
                self.width == other.width,
                self.height == other.height,
                forall|k: int| 0 <= k < i ==> self.pixels[k] == other.pixels[k],
            decreases self.pixels.len() - i,
        {
            if self.pixels[i] != other.pixels[i] {
                return false;
            }
            i = i + 1;
        }
        assert(self.pixels@ =~= other.pixels@);
        true
    }

    /// A copy with the same size and the same bytes.
    pub fn snapshot(&self) -> (r: IconPixmap)
        ensures
            r@ == self@,
    {
        let pixels = self.pixels.clone();
        IconPixmap { width: self.width, height: self.height, pixels }
    }
}

/// Copies an optional list of pixmaps.
pub fn copy_icons(p: &Option<Vec<IconPixmap>>) -> (r: Option<Vec<IconPixmap>>)
    ensures
        icons_view(r) == icons_view(*p),
{
    match p {
        Some(v) => {
            let mut out: Vec<IconPixmap> = Vec::new();
            let mut i: usize = 0;
            while i < v.len()
                invariant
                    i <= v.len(),
                    out.len() == i,
                    forall|k: int| 0 <= k < i ==> out[k]@ == v[k]@,
                decreases v.len() - i,
            {
                out.push(v[i].snapshot());
                i = i + 1;
            }
            Some(out)
        },
        None => None,
    }
}

/// Whether two optional lists of images hold the same images in the same
/// order, or both hold none.
pub fn same_icons(a: &Option<Vec<IconPixmap>>, b: &Option<Vec<IconPixmap>>) -> (r: bool)
    ensures
        r == (icons_view(*a) == icons_view(*b)),
{
    match (a, b) {
        (Some(x), Some(y)) => {
            if x.len() != y.len() {
                assert(pixmaps_view(x@).len() != pixmaps_view(y@).len());
                return false;
            }
            let mut i: usize = 0;
            while i < x.len()
                invariant
                    i <= x.len(),
                    x.len() == y.len(),
                    icons_view(*a) == Some(pixmaps_view(x@)),
                    icons_view(*b) == Some(pixmaps_view(y@)),
                    forall|k: int| 0 <= k < i ==> x[k]@ == y[k]@,
                decreases x.len() - i,
            {
                if !x[i].same_as(&y[i]) {
                    assert(pixmaps_view(x@)[i as int] != pixmaps_view(y@)[i as int]);
                    return false;
                }
                i = i + 1;
            }
            assert(pixmaps_view(x@) =~= pixmaps_view(y@));
            true
        },
        (None, None) => true,
        _ => false,
    }
}

impl TrayItemInfo {
    /// Whether two items are in the same state.
    pub fn same_as(&self, other: &TrayItemInfo) -> (r: bool)
        ensures
            r == (self@ == other@),
    {
        self.status == other.status
            && same_optional_text(&self.icon_name, &other.icon_name)
            && same_optional_text(&self.icon_theme_path, &other.icon_theme_path)
            && same_icons(&self.icon_pixmap, &other.icon_pixmap)
    }

    /// An item with no icon at all and the status `Passive`.
    pub fn blank() -> (r: TrayItemInfo)
        ensures
            r@ == (ItemView {
                icon_name: None,
                icon_theme_path: None,
                icon_pixmap: None,
                status: Status::Passive,
            }),
    {
        TrayItemInfo {
            icon_name: None,
            icon_theme_path: None,
            icon_pixmap: None,
            status: Status::Passive,
        }
    }

    /// A full copy of the item's current state.
    pub fn snapshot(&self) -> (r: TrayItemInfo)
        ensures
            r@ == self@,
    {
        TrayItemInfo {
            icon_name: copy_text(&self.icon_name),
            icon_theme_path: copy_text(&self.icon_theme_path),
            icon_pixmap: copy_icons(&self.icon_pixmap),
            status: self.status,
        }
    }
}

} // verus!
