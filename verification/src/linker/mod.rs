//! Kernel image layout: the default linker script and the regions it
//! defines.

use vstd::prelude::*;

use crate::text::{hexadecimal, zero_pad};

use core::ops::Range;

pub mod app;

pub use app::{AppIterator, AppMeta, SlotCopy};

verus! {

/// The linker script shared by the tutorial kernels, for the qemu-virt
/// RISC-V machine.
pub const SCRIPT: &'static str = r#"
/* rCore Tutorial default linker script */
OUTPUT_ARCH(riscv)
ENTRY(_start)

MEMORY
{
    RAM (wxa) : ORIGIN = 0x80000000, LENGTH = 16M
}

SECTIONS
{
    . = ORIGIN(RAM);
    __start = .;

    .text : ALIGN(4)
    {
        __text_start = .;
        *(.text.entry)
        *(.text .text.*)
        __text_end = .;
    } > RAM

    .rodata : ALIGN(4)
    {
        __rodata_start = .;
        *(.rodata .rodata.*)
        __rodata_end = .;
    } > RAM

    .data : ALIGN(4)
    {
        __data_start = .;
        *(.data .data.*)
        __data_end = .;
    } > RAM

    .bss (NOLOAD) : ALIGN(4)
    {
        __bss_start = .;
        *(.sbss .sbss.* .bss .bss.*)
        *(COMMON)
        __bss_end = .;
    } > RAM

    .boot : ALIGN(4)
    {
        __boot_start = .;
        *(.text.boot .boot .boot.*)
        __boot_end = .;
    } > RAM

    . = ALIGN(8);
    __end = .;
}
"#;

/// Logical title of a kernel region.
#[derive(Clone, Copy, Debug, PartialEq, Eq, Structural)]
pub enum KernelRegionTitle {
    Text,
    Rodata,
    Data,
    Boot,
}

/// A contiguous kernel region and its title.
#[derive(Debug, PartialEq, Eq)]
pub struct KernelRegion {
    pub title: KernelRegionTitle,
    pub range: Range<usize>,
}

/// The name a title is shown by.
pub open spec fn title_name(title: KernelRegionTitle) -> Seq<char> {
    match title {
        KernelRegionTitle::Text => "Text"@,
        KernelRegionTitle::Rodata => "Rodata"@,
        KernelRegionTitle::Data => "Data"@,
        KernelRegionTitle::Boot => "Boot"@,
    }
}

impl KernelRegionTitle {
    /// The name the title is shown by.
    pub fn name(&self) -> (r: &'static str)
        ensures
            r@ == title_name(*self),
    {
        match self {
            KernelRegionTitle::Text => "Text",
            KernelRegionTitle::Rodata => "Rodata",
            KernelRegionTitle::Data => "Data",
            KernelRegionTitle::Boot => "Boot",
        }
    }
}

/// The text a region is shown as: its title, then its range in
/// hexadecimal padded to sixteen digits, as
/// `Text: [0x0000000080000000 .. 0x0000000080001000)`.
pub open spec fn region_text(title: KernelRegionTitle, start: usize, end: usize) -> Seq<char> {
    range_text(title_name(title), start, end)
}

/// `name`, then the range `start .. end` in lower-case hexadecimal padded
/// with zeros to sixteen digits, as `name: [0x... .. 0x...)`.
pub open spec fn range_text(name: Seq<char>, start: usize, end: usize) -> Seq<char> {
    name + ": [0x"@ + zero_pad(hexadecimal(start as nat), 16) + " .. 0x"@ + zero_pad(
        hexadecimal(end as nat),
        16,
    ) + ")"@
}

/// Formats with std's `format!("{}: [0x{:016x} .. 0x{:016x})")`: the name
/// as it is, then the two bounds in lower-case hexadecimal, zero padded to
/// sixteen digits.
#[verifier::external_body]
fn format_region(name: &str, start: usize, end: usize) -> (r: String)
    ensures
        r@ == range_text(name@, start, end),
{
    format!("{}: [0x{:016x} .. 0x{:016x})", name, start, end)
}

impl KernelRegion {
    /// The region as it is displayed.
    pub fn display_string(&self) -> (r: String)
        ensures
            r@ == region_text(self.title, self.range.start, self.range.end),
    {
        format_region(self.title.name(), self.range.start, self.range.end)
    }

    /// A field-by-field copy.
    fn copy(&self) -> (r: KernelRegion)
        ensures
            r == *self,
    {
        KernelRegion {
            title: self.title,
            range: Range { start: self.range.start, end: self.range.end },
        }
    }
}

impl Clone for KernelRegion {
    /// A field-by-field copy.
    fn clone(&self) -> (r: KernelRegion)
        ensures
            r == *self,
    {
        self.copy()
    }
}

/// A region not placed yet: both ends at `usize::MAX`.
fn empty_region(title: KernelRegionTitle) -> (r: KernelRegion)
    ensures
        r.title == title,
        r.range.start == usize::MAX,
        r.range.end == usize::MAX,
{
    KernelRegion { title, range: Range { start: usize::MAX, end: usize::MAX } }
}

/// The placeholder regions, in image order.
pub open spec fn init_regions() -> Seq<KernelRegion> {
    seq![
        KernelRegion { title: KernelRegionTitle::Text, range: Range { start: usize::MAX, end: usize::MAX } },
        KernelRegion { title: KernelRegionTitle::Rodata, range: Range { start: usize::MAX, end: usize::MAX } },
        KernelRegion { title: KernelRegionTitle::Data, range: Range { start: usize::MAX, end: usize::MAX } },
        KernelRegion { title: KernelRegionTitle::Boot, range: Range { start: usize::MAX, end: usize::MAX } },
    ]
}

/// The kernel image: its bounds and its regions.
pub struct KernelLayout {
    start_addr: usize,
    end_addr: usize,
    regions: Vec<KernelRegion>,
}

impl KernelLayout {
    /// First address of the image.
    pub closed spec fn start_view(&self) -> usize {
        self.start_addr
    }

    /// First address past the image.
    pub closed spec fn end_view(&self) -> usize {
        self.end_addr
    }

    /// The regions, in order.
    pub closed spec fn regions_view(&self) -> Seq<KernelRegion> {
        self.regions@
    }

    /// The placeholder layout, to be filled in with real addresses: both
    /// bounds at `usize::MAX` and the four regions not placed.
    pub fn init() -> (r: KernelLayout)
        ensures
            r.start_view() == usize::MAX,
            r.end_view() == usize::MAX,
            r.regions_view() == init_regions(),
    {
        let mut regions: Vec<KernelRegion> = Vec::new();
        regions.push(empty_region(KernelRegionTitle::Text));
        regions.push(empty_region(KernelRegionTitle::Rodata));
        regions.push(empty_region(KernelRegionTitle::Data));
        regions.push(empty_region(KernelRegionTitle::Boot));
        proof {
            assert(regions@ =~= init_regions());
        }
        KernelLayout { start_addr: usize::MAX, end_addr: usize::MAX, regions }
    }

    /// First address of the image.
    pub fn start(&self) -> (r: usize)
        ensures
            r == self.start_view(),
    {
        self.start_addr
    }

    /// First address past the image.
    pub fn end(&self) -> (r: usize)
        ensures
            r == self.end_view(),
    {
        self.end_addr
    }

    /// Size of the image; 0 when the end is not after the start.
    pub fn len(&self) -> (r: usize)
        ensures
            r == (if self.end_view() >= self.start_view() {
                self.end_view() - self.start_view()
            } else {
                0
            }),
    {
        self.end_addr.saturating_sub(self.start_addr)
    }

    /// Iterates over the regions in order.
    pub fn iter(&self) -> (r: KernelRegionIter<'_>)
        ensures
            r.remaining() == self.regions_view(),
            r.wf(),
    {
        let r = KernelRegionIter { regions: self.regions.as_slice(), index: 0 };
        proof {
            assert(r.remaining() =~= self.regions_view());
        }
        r
    }
}

/// Iteration over the regions of a [`KernelLayout`].
pub struct KernelRegionIter<'a> {
    regions: &'a [KernelRegion],
    index: usize,
}

impl<'a> KernelRegionIter<'a> {
    /// The regions not handed out yet.
    pub closed spec fn remaining(&self) -> Seq<KernelRegion> {
        self.regions@.subrange(self.index as int, self.regions@.len() as int)
    }

    /// The position is within the regions.
    pub closed spec fn wf(&self) -> bool {
        self.index <= self.regions@.len()
    }

    /// The next region, if any.
    pub fn next(&mut self) -> (r: Option<KernelRegion>)
        requires
            old(self).wf(),
        ensures
            old(self).remaining().len() == 0 ==> r is None && final(self).remaining() == old(self).remaining(),
            old(self).remaining().len() > 0 ==> r == Some(old(self).remaining()[0])
                && final(self).remaining() == old(self).remaining().drop_first(),
            final(self).wf(),
    {
        if self.index >= self.regions.len() {
            return None;
        }
        let region = self.regions[self.index].copy();
        self.index = self.index + 1;
        proof {
            assert(self.remaining() =~= old(self).remaining().drop_first());
        }
        Some(region)
    }

    /// The number of regions left.
    pub fn size_hint(&self) -> (r: (usize, Option<usize>))
        requires
            self.wf(),
        ensures
            r.0 == self.remaining().len(),
            r.1 == Some(r.0),
    {
        let remaining = self.regions.len() - self.index;
        (remaining, Some(remaining))
    }
}

} // verus!
