//! What a consumer shows for an item: whether it is visible, and which icon.

use vstd::prelude::*;
use crate::tray::item::{IconPixmap, ItemView, PixmapView, Status, TrayItemInfo};

verus! {

/// Whether an item with this status is shown: active items and items that
/// need attention are, passive ones are not.
pub open spec fn shown(status: Status) -> bool {
    status is Active || status is NeedsAttention
}

/// Whether an item with this status is shown.
pub fn is_visible(status: Status) -> (b: bool)
    ensures
        b == shown(status),
{
    match status {
        Status::Active => true,
        Status::NeedsAttention => true,
        Status::Passive => false,
    }
}

/// The bytes of an image with red first and alpha last, made from bytes with
/// alpha first: every whole group of four bytes is turned by one place, and
/// bytes left over at the end are dropped.
pub open spec fn rgba_of(argb: Seq<u8>) -> Seq<u8> {
    Seq::new(((argb.len() / 4) * 4) as nat, |i: int| argb[(i / 4) * 4 + (i % 4 + 1) % 4])
}

/// Reorders image bytes from alpha-red-green-blue to red-green-blue-alpha.
pub fn argb_to_rgba(argb: &Vec<u8>) -> (rgba: Vec<u8>)
    ensures
        rgba@ == rgba_of(argb@),
{
    let n = argb.len();
    let mut rgba: Vec<u8> = Vec::new();
    let mut k: usize = 0;
    while n - k >= 4
        invariant
            n == argb.len(),
            k <= n,
            k % 4 == 0,
            rgba.len() == k,
            forall|i: int| 0 <= i < k ==> rgba[i] == argb[(i / 4) * 4 + (i % 4 + 1) % 4],
        decreases n - k,
    {
        rgba.push(argb[k + 1]);
        rgba.push(argb[k + 2]);
        rgba.push(argb[k + 3]);
        rgba.push(argb[k]);
        k = k + 4;
    }
    rgba
}

/// Whether position `i` holds the image to show: none is wider, and of the
/// images as wide as it, it comes last.
pub open spec fn is_widest(images: Seq<PixmapView>, i: int) -> bool {
    &&& 0 <= i < images.len()
    &&& forall|j: int| 0 <= j < images.len() ==> images[j].width <= images[i].width
    &&& forall|j: int| i < j < images.len() ==> images[j].width < images[i].width
}

/// The position of the widest image, the last one of them where several are
/// as wide. There is none in an empty list.
pub fn widest(images: &Vec<IconPixmap>) -> (r: Option<usize>)
    ensures
        match r {
            Some(i) => is_widest(crate::tray::item::pixmaps_view(images@), i as int),
            None => images.len() == 0,
        },
{
    if images.len() == 0 {
        return None;
    }
    let mut best: usize = 0;
    let mut j: usize = 1;
    while j < images.len()
        invariant
            1 <= j <= images.len(),
            best < j,
            forall|k: int| 0 <= k < j ==> images[k].width <= images[best as int].width,
            forall|k: int| best < k < j ==> images[k].width < images[best as int].width,
        decreases images.len() - j,
    {
        if images[j].width >= images[best].width {
            best = j;
        }
        j = j + 1;
    }
    Some(best)
}

/// Where the picture of an item comes from.
#[derive(Clone, Debug, PartialEq, Eq)]
pub enum IconSource {
    /// A named icon of the icon theme.
    Named(String),
    /// An image of the given size, four bytes per pixel, red first and alpha
    /// last.
    Pixels { width: i32, height: i32, rgba: Vec<u8> },
    /// The item offers a list of images and the list is empty: what is shown
    /// stays.
    Unchanged,
    /// The item has no icon: the stand-in for a missing image is shown.
    Missing,
}

/// Mathematical value of an [`IconSource`].
pub enum IconSourceView {
    Named(Seq<char>),
    Pixels { width: i32, height: i32, rgba: Seq<u8> },
    Unchanged,
    Missing,
}

impl View for IconSource {
    type V = IconSourceView;

    open spec fn view(&self) -> IconSourceView {
        match self {
            IconSource::Named(name) => IconSourceView::Named(name@),
            IconSource::Pixels { width, height, rgba } => IconSourceView::Pixels {
                width: *width,
                height: *height,
                rgba: rgba@,
            },
            IconSource::Unchanged => IconSourceView::Unchanged,
            IconSource::Missing => IconSourceView::Missing,
        }
    }
}

/// The position of the image to show among `images`, which is not empty.
pub open spec fn widest_of(images: Seq<PixmapView>) -> int {
    choose|i: int| is_widest(images, i)
}

/// The picture to show for an item. A name goes before images; of several
/// images the widest is taken, with its bytes reordered for display.
pub open spec fn icon_of(info: ItemView) -> IconSourceView {
    match info.icon_name {
        Some(name) => IconSourceView::Named(name),
        None => match info.icon_pixmap {
            Some(images) => if images.len() == 0 {
                IconSourceView::Unchanged
            } else {
                let image = images[widest_of(images)];
                IconSourceView::Pixels {
                    width: image.width,
                    height: image.height,
                    rgba: rgba_of(image.pixels),
                }
            },
            None => IconSourceView::Missing,
        },
    }
}

/// At most one position holds the image to show.
pub proof fn lemma_widest_unique(images: Seq<PixmapView>, i: int, j: int)
    requires
        is_widest(images, i),
        is_widest(images, j),
    ensures
        i == j,
{
    if i < j {
        assert(images[i].width <= images[j].width);
    } else if j < i {
        assert(images[j].width <= images[i].width);
    }
}

/// The picture to show for an item.
pub fn choose_icon(info: &TrayItemInfo) -> (icon: IconSource)
    ensures
        icon@ == icon_of(info@),
{
    match &info.icon_name {
        Some(name) => IconSource::Named(name.clone()),
        None => match &info.icon_pixmap {
            Some(images) => match widest(images) {
                Some(i) => {
                    let image = &images[i];
                    proof {
                        let views = crate::tray::item::pixmaps_view(images@);
                        lemma_widest_unique(views, i as int, widest_of(views));
                    }
                    IconSource::Pixels {
                        width: image.width,
                        height: image.height,
                        rgba: argb_to_rgba(&image.pixels),
                    }
                },
                None => IconSource::Unchanged,
            },
            None => IconSource::Missing,
        },
    }
}

/// Whether one of `searched` is the directory `path`.
pub open spec fn is_searched(searched: Seq<String>, path: Seq<char>) -> bool {
    exists|i: int| 0 <= i < searched.len() && (#[trigger] searched[i])@ == path
}

/// The directory to add to the icon theme's search path before the item is
/// drawn: the item's own, unless the theme searches it already.
pub fn search_path_to_add<'a>(info: &'a TrayItemInfo, searched: &Vec<String>) -> (r: Option<
    &'a String,
>)
    ensures
        match r {
            Some(path) => info.icon_theme_path == Some(*path) && !is_searched(searched@, path@),
            None => match info.icon_theme_path {
                Some(path) => is_searched(searched@, path@),
                None => true,
            },
        },
{
    match &info.icon_theme_path {
        Some(path) => {
            let mut i: usize = 0;
            while i < searched.len()
                invariant
                    i <= searched.len(),
                    info.icon_theme_path == Some(*path),
                    forall|k: int| 0 <= k < i ==> (#[trigger] searched[k])@ != path@,
                decreases searched.len() - i,
            {
                if searched[i] == *path {
                    return None;
                }
                i = i + 1;
            }
            Some(path)
        },
        None => None,
    }
}

} // verus!
