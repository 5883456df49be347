//! Monitors as the system enumerates them, the order this library gives
//! them, and the virtual screen that spans them.

use crate::error::Error;
use crate::order::lemma_filter_prefix;
use vstd::prelude::*;
use vstd::std_specs::cmp::PartialEqSpecImpl;

verus! {

/// One monitor: its place among the enumerated monitors and the handle the
/// system knows it by. Place 0 is the primary monitor.
#[derive(Clone, Copy, Debug)]
pub struct Monitor {
    pub index: u32,
    pub h_monitor: isize,
}

/// Whether a monitor handle names no monitor: the system hands out neither
/// the null handle nor -1.
pub open spec fn is_invalid(h_monitor: isize) -> bool {
    h_monitor == 0 || h_monitor == -1
}

/// Holds of every handle but `primary`.
pub open spec fn other_than(primary: isize) -> spec_fn(isize) -> bool {
    |h_monitor: isize| h_monitor != primary
}

/// The order in which the enumerated monitors are numbered: the primary
/// monitor first, then the others as the system listed them. Without an
/// enumerated monitor there is nothing to number.
pub open spec fn monitor_order(handles: Seq<isize>, primary: isize) -> Seq<isize> {
    if handles.len() == 0 {
        Seq::empty()
    } else {
        seq![primary] + handles.filter(other_than(primary))
    }
}

/// The monitors that stand for `handles`, numbered from 0.
pub open spec fn numbered(handles: Seq<isize>) -> Seq<Monitor> {
    Seq::new(handles.len(), |i: int| Monitor { index: i as u32, h_monitor: handles[i] })
}

/// The number of UTF-16 units before the first NUL of a fixed-size name
/// field, or the size of the field if it holds no NUL.
pub open spec fn name_len(field: Seq<u16>) -> nat
    decreases field.len(),
{
    if field.len() == 0 || field[0] == 0 {
        0
    } else {
        1 + name_len(field.drop_first())
    }
}

/// What an enumeration listed, as a sequence; nothing where it failed.
pub open spec fn listed(enumeration: Option<&[isize]>) -> Option<Seq<isize>> {
    match enumeration {
        Some(list) => Some(list@),
        None => None,
    }
}

/// Two monitors are the same monitor when they have the same handle. The
/// place in the numbering does not count: it can change from one
/// enumeration to the next.
impl PartialEq for Monitor {
    fn eq(&self, other: &Self) -> (same: bool) {
        self.h_monitor == other.h_monitor
    }
}

impl Eq for Monitor {

}

impl PartialEqSpecImpl for Monitor {
    open spec fn obeys_eq_spec() -> bool {
        true
    }

    open spec fn eq_spec(&self, other: &Self) -> bool {
        self.h_monitor == other.h_monitor
    }
}

impl Monitor {
    /// The primary monitor, which is monitor 0, from the handle the system
    /// gave for it.
    pub fn primary(h_monitor: isize) -> (res: Result<Self, Error>)
        ensures
            res == if is_invalid(h_monitor) {
                Err::<Monitor, Error>(Error::NotFound)
            } else {
                Ok::<Monitor, Error>(Monitor { index: 0, h_monitor })
            },
    {
        if h_monitor == 0 || h_monitor == -1 {
            Err(Error::NotFound)
        } else {
            Ok(Monitor { index: 0, h_monitor })
        }
    }

    /// What `from_index` returns: an error where the enumeration failed or
    /// listed more than can be numbered, else the monitor at that place in
    /// the numbering if there is one.
    pub open spec fn lookup(handles: Option<Seq<isize>>, primary: isize, index: u32) -> Result<
        Monitor,
        Error,
    > {
        match handles {
            None => Err(Error::Enumeration),
            Some(list) => {
                let order = monitor_order(list, primary);
                if list.len() > u32::MAX {
                    Err(Error::Enumeration)
                } else if index < order.len() {
                    Ok(Monitor { index, h_monitor: order[index as int] })
                } else {
                    Err(Error::NotFound)
                }
            },
        }
    }

    /// What `all` returns: an error where the enumeration failed or listed
    /// more than can be numbered, else the monitors in their numbering.
    pub open spec fn enumerated(handles: Option<Seq<isize>>, primary: isize) -> Result<
        Seq<Monitor>,
        Error,
    > {
        match handles {
            None => Err(Error::Enumeration),
            Some(list) => if list.len() > u32::MAX {
                Err(Error::Enumeration)
            } else {
                Ok(numbered(monitor_order(list, primary)))
            },
        }
    }

    /// The monitor with the given number among the enumerated monitors.
    pub fn from_index(index: u32, handles: Option<&[isize]>, primary: isize) -> (res: Result<
        Self,
        Error,
    >)
        ensures
            res == Self::lookup(listed(handles), primary, index),
    {
        match handles {
            Some(list) if list.len() <= 0xffff_ffff => Self::find(index, list, primary),
            _ => Err(Error::Enumeration),
        }
    }

    /// The monitor at place `index` of the numbering, if there is one.
    fn find(index: u32, handles: &[isize], primary: isize) -> (res: Result<Self, Error>)
        requires
            handles@.len() <= u32::MAX,
        ensures
            res == Self::lookup(Some(handles@), primary, index),
    {
        if handles.len() == 0 {
            return Err(Error::NotFound);
        }
        if index == 0 {
            return Ok(Monitor { index: 0, h_monitor: primary });
        }
        let ghost keep = other_than(primary);
        let mut next: u32 = 1;
        let mut i: usize = 0;
        while i < handles.len()
            invariant
                0 <= i <= handles@.len(),
                keep == other_than(primary),
                handles@.len() <= u32::MAX,
                1 <= next <= index,
                next == 1 + handles@.take(i as int).filter(keep).len(),
            decreases handles@.len() - i,
        {
            let h_monitor = handles[i];
            proof {
                reveal(Seq::filter);
                assert(handles@.take(i + 1).drop_last() =~= handles@.take(i as int));
                assert(handles@.take(i + 1).last() == h_monitor);
            }
            if h_monitor != primary {
                if next == index {
                    proof {
                        lemma_filter_prefix(handles@, keep, i + 1);
                    }
                    return Ok(Monitor { index, h_monitor });
                }
                next = next + 1;
            }
            i = i + 1;
        }
        proof {
            assert(handles@.take(i as int) =~= handles@);
        }
        Err(Error::NotFound)
    }

    /// All monitors, the primary monitor first. The list is empty where nothing
    /// was enumerated, which is no error; a failed enumeration is one.
    pub fn all(handles: Option<&[isize]>, primary: isize) -> (res: Result<Vec<Self>, Error>)
        ensures
            match Self::enumerated(listed(handles), primary) {
                Ok(expected) => res matches Ok(monitors) && monitors@ == expected,
                Err(e) => res == Err::<Vec<Monitor>, Error>(e),
            },
            handles matches Some(list) && 0 < list@.len() <= u32::MAX ==> (res matches Ok(
                monitors,
            ) && monitors@.len() > 0 && monitors@[0] == (Monitor { index: 0, h_monitor: primary })),
    {
        match handles {
            Some(list) if list.len() <= 0xffff_ffff => Ok(Self::number(list, primary)),
            _ => Err(Error::Enumeration),
        }
    }

    /// The monitors that stand for what was enumerated, in their numbering.
    fn number(handles: &[isize], primary: isize) -> (monitors: Vec<Self>)
        requires
            handles@.len() <= u32::MAX,
        ensures
            monitors@ == numbered(monitor_order(handles@, primary)),
            handles@.len() > 0 ==> monitors@.len() > 0 && monitors@[0] == (Monitor {
                index: 0,
                h_monitor: primary,
            }),
    {
        let mut monitors: Vec<Monitor> = Vec::new();
        if handles.len() == 0 {
            assert(monitors@ =~= numbered(monitor_order(handles@, primary)));
            return monitors;
        }
        monitors.push(Monitor { index: 0, h_monitor: primary });
        let ghost keep = other_than(primary);
        let mut i: usize = 0;
        while i < handles.len()
            invariant
                0 <= i <= handles@.len(),
                handles@.len() <= u32::MAX,
                keep == other_than(primary),
                monitors@ == numbered(seq![primary] + handles@.take(i as int).filter(keep)),
            decreases handles@.len() - i,
        {
            let h_monitor = handles[i];
            proof {
                reveal(Seq::filter);
                assert(handles@.take(i + 1).drop_last() =~= handles@.take(i as int));
                assert(handles@.take(i + 1).last() == h_monitor);
                handles@.take(i as int).lemma_filter_len(keep);
            }
            if h_monitor != primary {
                let index = monitors.len() as u32;
                monitors.push(Monitor { index, h_monitor });
                assert(monitors@ =~= numbered(
                    seq![primary] + handles@.take(i + 1).filter(keep),
                ));
            }
            i = i + 1;
        }
        proof {
            assert(handles@.take(i as int) =~= handles@);
        }
        monitors
    }

    pub fn index(&self) -> (index: u32)
        ensures
            index == self.index,
    {
        self.index
    }

    pub fn h_monitor(&self) -> (h_monitor: isize)
        ensures
            h_monitor == self.h_monitor,
    {
        self.h_monitor
    }

    /// The device name that a fixed-size, NUL-padded field of UTF-16 units
    /// holds: the units before the first NUL.
    pub fn device_name_units(field: &[u16]) -> (name: &[u16])
        ensures
            name@ == field@.take(name_len(field@) as int),
            name_len(field@) <= field@.len(),
            forall|i: int| 0 <= i < name@.len() ==> name@[i] != 0,
            name@.len() < field@.len() ==> field@[name@.len() as int] == 0,
    {
        let mut len: usize = 0;
        assert(field@.skip(0) =~= field@);
        while len < field.len() && field[len] != 0
            invariant
                0 <= len <= field@.len(),
                name_len(field@) == len + name_len(field@.skip(len as int)),
                forall|i: int| 0 <= i < len ==> field@[i] != 0,
            decreases field@.len() - len,
        {
            proof {
                assert(field@.skip(len as int).drop_first() =~= field@.skip(len + 1));
            }
            len = len + 1;
        }
        proof {
            if len < field@.len() {
                assert(field@.skip(len as int)[0] == 0);
            }
        }
        vstd::slice::slice_subrange(field, 0, len)
    }

    /// The device name followed by the NUL that ends a wide string.
    pub fn device_name_wide(name: &[u16]) -> (wide: Vec<u16>)
        ensures
            wide@ == name@.push(0),
    {
        let mut wide: Vec<u16> = Vec::new();
        let mut i: usize = 0;
        while i < name.len()
            invariant
                0 <= i <= name@.len(),
                wide@ == name@.take(i as int),
            decreases name@.len() - i,
        {
            wide.push(name[i]);
            assert(wide@ =~= name@.take(i + 1));
            i = i + 1;
        }
        assert(name@.take(i as int) =~= name@);
        wide.push(0);
        wide
    }
}

/// The rectangle that spans all monitors.
#[derive(Clone, Copy, Debug, PartialEq, Eq, Structural)]
pub struct VirtualScreen {}

impl VirtualScreen {
    pub fn new() -> (res: Result<Self, Error>)
        ensures
            res == Ok::<VirtualScreen, Error>(VirtualScreen {  }),
    {
        Ok(VirtualScreen {  })
    }

    /// The size of the virtual screen, from the two metrics the system
    /// reports for it. A metric that is not positive means the system has
    /// no answer.
    pub fn size(&self, cx: i32, cy: i32) -> (res: Result<(u32, u32), Error>)
        ensures
            res == if cx <= 0 || cy <= 0 {
                Err::<(u32, u32), Error>(Error::Resource)
            } else {
                Ok::<(u32, u32), Error>((cx as u32, cy as u32))
            },
    {
        if cx <= 0 || cy <= 0 {
            return Err(Error::Resource);
        }
        Ok((cx as u32, cy as u32))
    }

    /// The virtual screen's left and top edge, which may be negative, with
    /// its size.
    pub fn rect(&self, x: i32, y: i32, cx: i32, cy: i32) -> (res: Result<
        (i32, i32, u32, u32),
        Error,
    >)
        ensures
            res == if cx <= 0 || cy <= 0 {
                Err::<(i32, i32, u32, u32), Error>(Error::Resource)
            } else {
                Ok::<(i32, i32, u32, u32), Error>((x, y, cx as u32, cy as u32))
            },
    {
        match self.size(cx, cy) {
            Ok((width, height)) => Ok((x, y, width, height)),
            Err(e) => Err(e),
        }
    }
}

} // verus!
