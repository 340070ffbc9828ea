use vstd::prelude::*;
use vstd::utf8::*;

use crate::error::Error;
use crate::text::name_from_bytes;
use crate::text::trim_nul;

verus! {

/// Classification flags of a display mode.
#[derive(Debug, Clone, Copy, PartialEq, Eq, Structural)]
pub enum ModeType {
    Builtin,
    ClockC,
    CrtcC,
    Preferred,
    Default,
    UserDef,
    Driver,
}

/// The bits of the mode type field that a classification requires, all at once.
pub open spec fn mode_type_mask(t: ModeType) -> u32 {
    match t {
        ModeType::Builtin => 1,
        ModeType::ClockC => 3,
        ModeType::CrtcC => 5,
        ModeType::Preferred => 8,
        ModeType::Default => 16,
        ModeType::UserDef => 32,
        ModeType::Driver => 64,
    }
}

/// A display timing as the kernel describes it.
#[derive(Debug, Clone, Copy)]
pub struct ModeInfo {
    pub clock: u32,
    pub hdisplay: u16,
    pub hsync_start: u16,
    pub hsync_end: u16,
    pub htotal: u16,
    pub hskew: u16,
    pub vdisplay: u16,
    pub vsync_start: u16,
    pub vsync_end: u16,
    pub vtotal: u16,
    pub vscan: u16,
    pub vrefresh: u32,
    pub flags: u32,
    pub type_: u32,
    pub name: [u8; 32],
}

/// The two bytes of `x`, least significant first.
pub open spec fn le16(x: u16) -> Seq<u8> {
    seq![(x % 256) as u8, (x / 256) as u8]
}

/// The four bytes of `x`, least significant first.
pub open spec fn le32(x: u32) -> Seq<u8> {
    seq![(x % 256) as u8, ((x / 256) % 256) as u8, ((x / 65536) % 256) as u8, (x / 16777216) as u8]
}

/// The kernel's fixed layout of a mode timing: each field in declaration
/// order, little-endian, followed by the 32 name bytes.
pub open spec fn modeinfo_bytes(m: ModeInfo) -> Seq<u8> {
    le32(m.clock) + le16(m.hdisplay) + le16(m.hsync_start) + le16(m.hsync_end) + le16(m.htotal)
        + le16(m.hskew) + le16(m.vdisplay) + le16(m.vsync_start) + le16(m.vsync_end) + le16(
        m.vtotal,
    ) + le16(m.vscan) + le32(m.vrefresh) + le32(m.flags) + le32(m.type_) + m.name@
}

fn push_le16(out: &mut Vec<u8>, x: u16)
    ensures
        final(out)@ == old(out)@ + le16(x),
{
    out.push((x % 256) as u8);
    out.push((x / 256) as u8);
    assert(final(out)@ =~= old(out)@ + le16(x));
}

fn push_le32(out: &mut Vec<u8>, x: u32)
    ensures
        final(out)@ == old(out)@ + le32(x),
{
    out.push((x % 256) as u8);
    out.push(((x / 256) % 256) as u8);
    out.push(((x / 65536) % 256) as u8);
    out.push((x / 16777216) as u8);
    assert(final(out)@ =~= old(out)@ + le32(x));
}

impl ModeInfo {
    /// The bytes of this timing in the kernel's layout, as a property blob
    /// carries them.
    pub fn to_bytes(&self) -> (r: Vec<u8>)
        ensures
            r@ == modeinfo_bytes(*self),
            r@.len() == 68,
    {
        let mut out: Vec<u8> = Vec::new();
        push_le32(&mut out, self.clock);
        push_le16(&mut out, self.hdisplay);
        push_le16(&mut out, self.hsync_start);
        push_le16(&mut out, self.hsync_end);
        push_le16(&mut out, self.htotal);
        push_le16(&mut out, self.hskew);
        push_le16(&mut out, self.vdisplay);
        push_le16(&mut out, self.vsync_start);
        push_le16(&mut out, self.vsync_end);
        push_le16(&mut out, self.vtotal);
        push_le16(&mut out, self.vscan);
        push_le32(&mut out, self.vrefresh);
        push_le32(&mut out, self.flags);
        push_le32(&mut out, self.type_);
        let ghost head = out@;
        let mut i: usize = 0;
        while i < 32
            invariant
                i <= 32,
                out@ == head + self.name@.take(i as int),
            decreases 32 - i,
        {
            out.push(self.name[i]);
            assert(self.name@.take(i as int + 1) =~= self.name@.take(i as int).push(self.name@[i as int]));
            i = i + 1;
        }
        assert(self.name@.take(32) =~= self.name@);
        assert(out@ =~= modeinfo_bytes(*self));
        out
    }
}

/// `v` holds one mode per timing of `infos`, in order, each as `Mode::new`
/// makes it.
pub open spec fn modes_of(v: Seq<Mode>, infos: Seq<ModeInfo>) -> bool {
    &&& v.len() == infos.len()
    &&& forall|i: int|
        0 <= i < v.len() ==> {
            &&& (#[trigger] v[i]).spec_info() == infos[i]
            &&& v[i].spec_name() == decode_utf8(trim_nul(infos[i].name@))
        }
}

/// `v` holds one mode per timing of some list of timings, in order.
pub open spec fn modes_of_timings(v: Seq<Mode>) -> bool {
    exists|infos: Seq<ModeInfo>| #[trigger] modes_of(v, infos)
}

/// A display mode: its name and its timing.
#[derive(Debug, Clone)]
pub struct Mode {
    name: String,
    inner: ModeInfo,
}

impl Mode {
    /// The timing this mode was made from.
    pub closed spec fn spec_info(&self) -> ModeInfo {
        self.inner
    }

    /// The name of this mode.
    pub closed spec fn spec_name(&self) -> Seq<char> {
        self.name@
    }

    /// A mode from the kernel's timing; its name is the timing's name field up
    /// to the trailing zeros. Fails with `StringConversionError` when that is
    /// not valid UTF-8.
    pub fn new(info: ModeInfo) -> (r: Result<Mode, Error>)
        ensures
            valid_utf8(trim_nul(info.name@)) ==> (r matches Ok(m) && m.spec_info() == info
                && m.spec_name() == decode_utf8(trim_nul(info.name@))),
            !valid_utf8(trim_nul(info.name@)) ==> r == Err::<Mode, Error>(
                Error::StringConversionError,
            ),
    {
        let name = name_from_bytes(info.name.as_slice())?;
        Ok(Mode { name, inner: info })
    }

    /// The timing of this mode.
    pub fn into_inner(&self) -> (r: ModeInfo)
        ensures
            r == self.spec_info(),
    {
        self.inner
    }

    /// The name of this mode.
    pub fn get_name(&self) -> (r: &str)
        ensures
            r@ == self.spec_name(),
    {
        self.name.as_str()
    }

    /// Whether every flag bit that `arg` stands for is set in this mode's type.
    pub fn has_type(&self, arg: ModeType) -> (r: bool)
        ensures
            r == (self.spec_info().type_ & mode_type_mask(arg) == mode_type_mask(arg)),
    {
        let mask: u32 = match arg {
            ModeType::Builtin => 1,
            ModeType::ClockC => 3,
            ModeType::CrtcC => 5,
            ModeType::Preferred => 8,
            ModeType::Default => 16,
            ModeType::UserDef => 32,
            ModeType::Driver => 64,
        };
        (self.inner.type_ & mask) == mask
    }

    /// Active lines.
    pub fn height(&self) -> (r: usize)
        ensures
            r == self.spec_info().vdisplay,
    {
        self.inner.vdisplay as usize
    }

    /// Refresh rate, in hertz.
    pub fn refresh(&self) -> (r: usize)
        ensures
            r == self.spec_info().vrefresh,
    {
        self.inner.vrefresh as usize
    }

    /// Active pixels per line.
    pub fn width(&self) -> (r: usize)
        ensures
            r == self.spec_info().hdisplay,
    {
        self.inner.hdisplay as usize
    }
}

} // verus!
