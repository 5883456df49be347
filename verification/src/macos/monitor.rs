//! Displays as Quartz numbers them, and the order this library gives them.

use crate::error::Error;
use crate::order::lemma_filter_prefix;
use vstd::prelude::*;
use vstd::std_specs::cmp::PartialEqSpecImpl;

verus! {

/// One display: its place among the enumerated displays and the number
/// Quartz knows it by. Place 0 is the main display.
#[derive(Clone, Copy, Debug)]
pub struct Monitor {
    pub index: u32,
    pub display: u32,
}

/// What Quartz reports of a display's current mode: its size in points and
/// its size in pixels.
#[derive(Clone, Copy, Debug, PartialEq, Eq, Structural)]
pub struct DisplayMode {
    pub width: u64,
    pub height: u64,
    pub pixel_width: u64,
    pub pixel_height: u64,
}

/// Holds of every display but `main`.
pub open spec fn other_than(main: u32) -> spec_fn(u32) -> bool {
    |display: u32| display != main
}

/// The order in which the active displays are numbered: the main display
/// first, then the others as the operating system listed them. Without an
/// active display there is nothing to number.
pub open spec fn display_order(active: Seq<u32>, main: u32) -> Seq<u32> {
    if active.len() == 0 {
        Seq::empty()
    } else {
        seq![main] + active.filter(other_than(main))
    }
}

/// The monitors that stand for `displays`, numbered from 0.
pub open spec fn numbered(displays: Seq<u32>) -> Seq<Monitor> {
    Seq::new(displays.len(), |i: int| Monitor { index: i as u32, display: displays[i] })
}

/// The low 32 bits of a size that Quartz reports in 64.
pub open spec fn low_32(value: u64) -> u32 {
    (value % 0x1_0000_0000) as u32
}

/// What an enumeration listed, as a sequence; nothing where it failed.
pub open spec fn listed(enumeration: Option<&[u32]>) -> Option<Seq<u32>> {
    match enumeration {
        Some(list) => Some(list@),
        None => None,
    }
}

/// Two monitors are the same monitor when they have the same display. The
/// place in the numbering does not count: it can change from one
/// enumeration to the next.
impl PartialEq for Monitor {
    fn eq(&self, other: &Self) -> (same: bool) {
        self.display == other.display
    }
}

impl Eq for Monitor {

}

impl PartialEqSpecImpl for Monitor {
    open spec fn obeys_eq_spec() -> bool {
        true
    }

    open spec fn eq_spec(&self, other: &Self) -> bool {
        self.display == other.display
    }
}

impl Monitor {
    /// The main display, which is monitor 0. There is none where no display
    /// is active.
    pub fn primary(active: Option<&[u32]>, main: u32) -> (res: Result<Self, Error>)
        ensures
            res == Self::lookup(listed(active), main, 0),
            active matches Some(list) && 0 < list@.len() <= u32::MAX ==> res == Ok::<
                Monitor,
                Error,
            >(Monitor { index: 0, display: main }),
    {
        Self::from_index(0, active, main)
    }

    /// What `from_index` returns: an error where the enumeration failed or
    /// listed more than can be numbered, else the monitor at that place in
    /// the numbering if there is one.
    pub open spec fn lookup(active: Option<Seq<u32>>, main: u32, index: u32) -> Result<
        Monitor,
        Error,
    > {
        match active {
            None => Err(Error::Enumeration),
            Some(list) => {
                let order = display_order(list, main);
                if list.len() > u32::MAX {
                    Err(Error::Enumeration)
                } else if index < order.len() {
                    Ok(Monitor { index, display: order[index as int] })
                } else {
                    Err(Error::NotFound)
                }
            },
        }
    }

    /// What `all` returns: an error where the enumeration failed or listed
    /// more than can be numbered, else the monitors in their numbering.
    pub open spec fn enumerated(active: Option<Seq<u32>>, main: u32) -> Result<
        Seq<Monitor>,
        Error,
    > {
        match active {
            None => Err(Error::Enumeration),
            Some(list) => if list.len() > u32::MAX {
                Err(Error::Enumeration)
            } else {
                Ok(numbered(display_order(list, main)))
            },
        }
    }

    /// The monitor with the given number among the active displays.
    pub fn from_index(index: u32, active: Option<&[u32]>, main: u32) -> (res: Result<
        Self,
        Error,
    >)
        ensures
            res == Self::lookup(listed(active), main, index),
    {
        match active {
            Some(list) if list.len() <= 0xffff_ffff => Self::find(index, list, main),
            _ => Err(Error::Enumeration),
        }
    }

    /// The monitor at place `index` of the numbering, if there is one.
    fn find(index: u32, active: &[u32], main: u32) -> (res: Result<Self, Error>)
        requires
            active@.len() <= u32::MAX,
        ensures
            res == Self::lookup(Some(active@), main, index),
    {
        if active.len() == 0 {
            return Err(Error::NotFound);
        }
        if index == 0 {
            return Ok(Monitor { index: 0, display: main });
        }
        let ghost keep = other_than(main);
        let mut next: u32 = 1;
        let mut i: usize = 0;
        while i < active.len()
            invariant
                0 <= i <= active@.len(),
                keep == other_than(main),
                active@.len() <= u32::MAX,
                1 <= next <= index,
                next == 1 + active@.take(i as int).filter(keep).len(),
            decreases active@.len() - i,
        {
            let display = active[i];
            proof {
                reveal(Seq::filter);
                assert(active@.take(i + 1).drop_last() =~= active@.take(i as int));
                assert(active@.take(i + 1).last() == display);
            }
            if display != main {
                if next == index {
                    proof {
                        lemma_filter_prefix(active@, keep, i + 1);
                    }
                    return Ok(Monitor { index, display });
                }
                next = next + 1;
            }
            i = i + 1;
        }
        proof {
            assert(active@.take(i as int) =~= active@);
        }
        Err(Error::NotFound)
    }

    /// All monitors, the main display first. The list is empty where nothing
    /// was enumerated, which is no error; a failed enumeration is one.
    pub fn all(active: Option<&[u32]>, main: u32) -> (res: Result<Vec<Self>, Error>)
        ensures
            match Self::enumerated(listed(active), main) {
                Ok(expected) => res matches Ok(monitors) && monitors@ == expected,
                Err(e) => res == Err::<Vec<Monitor>, Error>(e),
            },
            active matches Some(list) && 0 < list@.len() <= u32::MAX ==> (res matches Ok(
                monitors,
            ) && monitors@.len() > 0 && monitors@[0] == (Monitor { index: 0, display: main })),
    {
        match active {
            Some(list) if list.len() <= 0xffff_ffff => Ok(Self::number(list, main)),
            _ => Err(Error::Enumeration),
        }
    }

    /// The monitors that stand for what was enumerated, in their numbering.
    fn number(active: &[u32], main: u32) -> (monitors: Vec<Self>)
        requires
            active@.len() <= u32::MAX,
        ensures
            monitors@ == numbered(display_order(active@, main)),
            active@.len() > 0 ==> monitors@.len() > 0 && monitors@[0] == (Monitor {
                index: 0,
                display: main,
            }),
    {
        let mut monitors: Vec<Monitor> = Vec::new();
        if active.len() == 0 {
            assert(monitors@ =~= numbered(display_order(active@, main)));
            return monitors;
        }
        monitors.push(Monitor { index: 0, display: main });
        let ghost keep = other_than(main);
        let mut i: usize = 0;
        while i < active.len()
            invariant
                0 <= i <= active@.len(),
                active@.len() <= u32::MAX,
                keep == other_than(main),
                monitors@ == numbered(seq![main] + active@.take(i as int).filter(keep)),
            decreases active@.len() - i,
        {
            let display = active[i];
            proof {
                reveal(Seq::filter);
                assert(active@.take(i + 1).drop_last() =~= active@.take(i as int));
                assert(active@.take(i + 1).last() == display);
                active@.take(i as int).lemma_filter_len(keep);
            }
            if display != main {
                let index = monitors.len() as u32;
                monitors.push(Monitor { index, display });
                assert(monitors@ =~= numbered(
                    seq![main] + active@.take(i + 1).filter(keep),
                ));
            }
            i = i + 1;
        }
        proof {
            assert(active@.take(i as int) =~= active@);
        }
        monitors
    }

    pub fn index(&self) -> (index: u32)
        ensures
            index == self.index,
    {
        self.index
    }

    /// The number Quartz knows the display by.
    pub fn display(&self) -> (display: u32)
        ensures
            display == self.display,
    {
        self.display
    }

    /// The size of the display in pixels, from its current mode. A display
    /// without a mode has no size. Quartz reports both sides in 64 bits;
    /// their low 32 bits are kept.
    pub fn size(&self, mode: Option<DisplayMode>) -> (res: Result<(u32, u32), Error>)
        ensures
            res == match mode {
                Some(m) => Ok::<(u32, u32), Error>((low_32(m.pixel_width), low_32(m.pixel_height))),
                None => Err::<(u32, u32), Error>(Error::NotFound),
            },
    {
        match mode {
            Some(m) => Ok(
                ((m.pixel_width % 0x1_0000_0000) as u32, (m.pixel_height % 0x1_0000_0000) as u32),
            ),
            None => Err(Error::NotFound),
        }
    }
}

} // verus!
