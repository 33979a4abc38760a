//! Detection status of a package and of a whole report, and the style a
//! status gives to a rendered line.

use vstd::prelude::*;
use crate::counters::{CounterBlock, Tally};

verus! {

/// The three-valued risk classification.
#[derive(Clone, Copy, Debug, PartialEq, Eq, Structural)]
pub enum CrateDetectionStatus {
    NoneDetectedForbidsUnsafe,
    NoneDetectedAllowsUnsafe,
    UnsafeDetected,
}

/// How a report is written: which glyphs it uses, and whether its cells
/// hold counts of unsafe occurrences or ratios of safe code.
#[derive(Clone, Copy, Debug, PartialEq, Eq, Structural)]
pub enum OutputFormat {
    Ascii,
    Utf8,
    GitHubMarkdown,
    Ratio,
    Code,
}

/// The one style that a whole rendered row or footer receives.
#[derive(Clone, Copy, Debug, PartialEq, Eq, Structural)]
pub enum LineStyle {
    /// No styling at all.
    Unstyled,
    Green,
    Normal,
    RedBold,
}

/// What is known of one package once its files are split in used and unused.
#[derive(Clone, Copy, Debug, PartialEq, Eq, Structural)]
pub struct UnsafeInfo {
    pub used: CounterBlock,
    pub unused: CounterBlock,
    pub forbids_unsafe: bool,
}

impl OutputFormat {
    /// Whether cells show the ratio of safe code rather than unsafe counts.
    pub open spec fn is_ratio(self) -> bool {
        self == OutputFormat::Ratio || self == OutputFormat::Code
    }

    pub fn shows_ratio(self) -> (r: bool)
        ensures
            r == self.is_ratio(),
    {
        match self {
            OutputFormat::Ratio | OutputFormat::Code => true,
            _ => false,
        }
    }
}

/// The status of a package with the given tallies and policy flag.
pub open spec fn status_of(used: Tally, unused: Tally, forbids_unsafe: bool) -> CrateDetectionStatus {
    if used.unsafe_total() + unused.unsafe_total() > 0 {
        CrateDetectionStatus::UnsafeDetected
    } else if forbids_unsafe {
        CrateDetectionStatus::NoneDetectedForbidsUnsafe
    } else {
        CrateDetectionStatus::NoneDetectedAllowsUnsafe
    }
}

/// The status of a whole report, from the number of packages of each status.
pub open spec fn overall_status(unsafe_detected: int, allows_unsafe: int) -> CrateDetectionStatus {
    if unsafe_detected > 0 {
        CrateDetectionStatus::UnsafeDetected
    } else if allows_unsafe > 0 {
        CrateDetectionStatus::NoneDetectedAllowsUnsafe
    } else {
        CrateDetectionStatus::NoneDetectedForbidsUnsafe
    }
}

/// The style of a line with the given status: markdown is never styled;
/// elsewhere a forbidding package is green, a detection red and bold.
pub open spec fn style_of(status: CrateDetectionStatus, format: OutputFormat) -> LineStyle {
    if format == OutputFormat::GitHubMarkdown {
        LineStyle::Unstyled
    } else {
        match status {
            CrateDetectionStatus::NoneDetectedForbidsUnsafe => LineStyle::Green,
            CrateDetectionStatus::NoneDetectedAllowsUnsafe => LineStyle::Normal,
            CrateDetectionStatus::UnsafeDetected => LineStyle::RedBold,
        }
    }
}

pub fn line_style(status: CrateDetectionStatus, format: OutputFormat) -> (style: LineStyle)
    ensures
        style == style_of(status, format),
{
    match format {
        OutputFormat::GitHubMarkdown => LineStyle::Unstyled,
        _ => match status {
            CrateDetectionStatus::NoneDetectedForbidsUnsafe => LineStyle::Green,
            CrateDetectionStatus::NoneDetectedAllowsUnsafe => LineStyle::Normal,
            CrateDetectionStatus::UnsafeDetected => LineStyle::RedBold,
        },
    }
}

impl UnsafeInfo {
    pub open spec fn status(self) -> CrateDetectionStatus {
        status_of(self.used@, self.unused@, self.forbids_unsafe)
    }

    /// Classifies the package: any unsafe occurrence, used or not, decides
    /// first; without one the policy flag decides.
    pub fn detection_status(&self) -> (status: CrateDetectionStatus)
        ensures
            status == self.status(),
    {
        if self.used.has_unsafe() || self.unused.has_unsafe() {
            CrateDetectionStatus::UnsafeDetected
        } else if self.forbids_unsafe {
            CrateDetectionStatus::NoneDetectedForbidsUnsafe
        } else {
            CrateDetectionStatus::NoneDetectedAllowsUnsafe
        }
    }
}

/// The running totals of one traversal.
#[derive(Clone, Copy, Debug, PartialEq, Eq, Structural)]
pub struct TotalPackageCounts {
    pub none_detected_forbids_unsafe: u64,
    pub none_detected_allows_unsafe: u64,
    pub unsafe_detected: u64,
    pub total_counter_block: CounterBlock,
    pub total_unused_counter_block: CounterBlock,
}

/// The mathematical value of the running totals.
pub struct Totals {
    pub forbids: int,
    pub allows: int,
    pub detected: int,
    pub used: Tally,
    pub unused: Tally,
}

impl Totals {
    pub open spec fn zero() -> Totals {
        Totals { forbids: 0, allows: 0, detected: 0, used: Tally::zero(), unused: Tally::zero() }
    }

    /// The totals after one more package, with its tallies and status.
    pub open spec fn with_package(self, used: Tally, unused: Tally, forbids_unsafe: bool) -> Totals {
        let status = status_of(used, unused, forbids_unsafe);
        Totals {
            forbids: self.forbids + if status == CrateDetectionStatus::NoneDetectedForbidsUnsafe {
                1int
            } else {
                0int
            },
            allows: self.allows + if status == CrateDetectionStatus::NoneDetectedAllowsUnsafe {
                1int
            } else {
                0int
            },
            detected: self.detected + if status == CrateDetectionStatus::UnsafeDetected {
                1int
            } else {
                0int
            },
            used: self.used.plus(used),
            unused: self.unused.plus(unused),
        }
    }

    pub open spec fn le(self, other: Totals) -> bool {
        &&& self.forbids <= other.forbids
        &&& self.allows <= other.allows
        &&& self.detected <= other.detected
        &&& self.used.le(other.used)
        &&& self.unused.le(other.unused)
    }

    pub open spec fn non_negative(self) -> bool {
        &&& 0 <= self.forbids
        &&& 0 <= self.allows
        &&& 0 <= self.detected
        &&& self.used.non_negative()
        &&& self.unused.non_negative()
    }

    /// Every total can be held in a `u64`.
    pub open spec fn fits(self) -> bool {
        &&& 0 <= self.forbids <= u64::MAX
        &&& 0 <= self.allows <= u64::MAX
        &&& 0 <= self.detected <= u64::MAX
        &&& self.used.fits()
        &&& self.unused.fits()
    }
}

impl View for TotalPackageCounts {
    type V = Totals;

    open spec fn view(&self) -> Totals {
        Totals {
            forbids: self.none_detected_forbids_unsafe as int,
            allows: self.none_detected_allows_unsafe as int,
            detected: self.unsafe_detected as int,
            used: self.total_counter_block@,
            unused: self.total_unused_counter_block@,
        }
    }
}

impl TotalPackageCounts {
    pub fn new() -> (r: TotalPackageCounts)
        ensures
            r@ == Totals::zero(),
    {
        TotalPackageCounts {
            none_detected_forbids_unsafe: 0,
            none_detected_allows_unsafe: 0,
            unsafe_detected: 0,
            total_counter_block: CounterBlock::new(),
            total_unused_counter_block: CounterBlock::new(),
        }
    }

    /// The totals with one more package, where each of them fits, else `None`.
    pub fn checked_add_package(&self, info: &UnsafeInfo) -> (r: Option<TotalPackageCounts>)
        ensures
            r.is_some() == self@.with_package(info.used@, info.unused@, info.forbids_unsafe).fits(),
            r.is_some() ==> r.unwrap()@ == self@.with_package(
                info.used@,
                info.unused@,
                info.forbids_unsafe,
            ),
    {
        let used = self.total_counter_block.checked_plus(info.used);
        let unused = self.total_unused_counter_block.checked_plus(info.unused);
        let full = match info.detection_status() {
            CrateDetectionStatus::NoneDetectedForbidsUnsafe => self.none_detected_forbids_unsafe
                == u64::MAX,
            CrateDetectionStatus::NoneDetectedAllowsUnsafe => self.none_detected_allows_unsafe
                == u64::MAX,
            CrateDetectionStatus::UnsafeDetected => self.unsafe_detected == u64::MAX,
        };
        if used.is_none() || unused.is_none() || full {
            return None;
        }
        let mut totals = *self;
        totals.add_package(info);
        Some(totals)
    }

    /// Adds one package to the totals: its used and unused blocks, and one
    /// to the count of its status.
    pub fn add_package(&mut self, info: &UnsafeInfo)
        requires
            old(self)@.with_package(info.used@, info.unused@, info.forbids_unsafe).fits(),
        ensures
            final(self)@ == old(self)@.with_package(info.used@, info.unused@, info.forbids_unsafe),
    {
        self.total_counter_block = self.total_counter_block.plus(info.used);
        self.total_unused_counter_block = self.total_unused_counter_block.plus(info.unused);
        match info.detection_status() {
            CrateDetectionStatus::NoneDetectedForbidsUnsafe => {
                self.none_detected_forbids_unsafe = self.none_detected_forbids_unsafe + 1;
            },
            CrateDetectionStatus::NoneDetectedAllowsUnsafe => {
                self.none_detected_allows_unsafe = self.none_detected_allows_unsafe + 1;
            },
            CrateDetectionStatus::UnsafeDetected => {
                self.unsafe_detected = self.unsafe_detected + 1;
            },
        }
    }

    /// The status of the whole report: a detection anywhere decides first,
    /// then a package that allows unsafe; a report in which every package
    /// forbids it, or that has no package, forbids it.
    pub fn get_total_detection_status(&self) -> (status: CrateDetectionStatus)
        ensures
            status == overall_status(self@.detected, self@.allows),
    {
        if self.unsafe_detected > 0 {
            CrateDetectionStatus::UnsafeDetected
        } else if self.none_detected_allows_unsafe > 0 {
            CrateDetectionStatus::NoneDetectedAllowsUnsafe
        } else {
            CrateDetectionStatus::NoneDetectedForbidsUnsafe
        }
    }
}

} // verus!
