use vstd::prelude::*;

use crate::device::Device;
use crate::error::Error;
use crate::format::Format;
use crate::transport::RawDumbBuffer;
use crate::transport::Transport;

verus! {

/// Kinds of pixel buffers that a device can allocate.
#[derive(Debug, Clone, Copy, PartialEq, Eq, Structural)]
pub enum BufferType {
    /// CPU-writable memory with no accelerated access.
    Dumb,
}

/// One release step of a buffer's teardown.
#[derive(Debug, Clone, Copy, PartialEq, Eq, Structural)]
pub enum TeardownStep {
    /// Drop the CPU mapping of the buffer's memory.
    Unmap,
    /// Withdraw the framebuffer registration with this id.
    RemoveFramebuffer(u32),
    /// Destroy the kernel buffer with this handle.
    DestroyBuffer(u32),
}

/// The ordered teardown of a buffer: unmap if mapped, then remove the
/// framebuffer if one is registered, then destroy the handle.
pub open spec fn teardown_of(mapped: bool, fb_id: Option<u32>, handle: u32) -> Seq<TeardownStep> {
    (if mapped {
        seq![TeardownStep::Unmap]
    } else {
        seq![]
    }) + (match fb_id {
        Some(f) => seq![TeardownStep::RemoveFramebuffer(f)],
        None => seq![],
    }) + seq![TeardownStep::DestroyBuffer(handle)]
}

/// Teardown releases in a fixed order: the mapping (if any) first, the
/// framebuffer registration (if any) next, and the kernel handle always, last.
pub proof fn lemma_teardown_order(mapped: bool, fb_id: Option<u32>, handle: u32)
    ensures
        teardown_of(mapped, fb_id, handle).last() == TeardownStep::DestroyBuffer(handle),
        teardown_of(mapped, fb_id, handle).len() == 1 + (if mapped { 1int } else { 0int }) + (if fb_id is Some { 1int } else { 0int }),
        mapped ==> teardown_of(mapped, fb_id, handle)[0] == TeardownStep::Unmap,
        fb_id matches Some(f) ==> teardown_of(mapped, fb_id, handle)[if mapped { 1int } else { 0int }]
            == TeardownStep::RemoveFramebuffer(f),
{
}

/// A pixel buffer: kernel memory with an optional CPU mapping and an optional
/// framebuffer registration.
pub struct Buffer<'a, T: Transport> {
    dev: &'a Device<T>,
    width: usize,
    height: usize,
    pitch: usize,
    size: usize,
    handle: u32,
    mapping: Option<T::Mapping>,
    fb_id: Option<u32>,
}

impl<'a, T: Transport> Buffer<'a, T> {
    /// The device this handle belongs to.
    pub closed spec fn spec_dev(&self) -> Device<T> {
        *self.dev
    }

    pub closed spec fn spec_width(&self) -> usize {
        self.width
    }

    pub closed spec fn spec_height(&self) -> usize {
        self.height
    }

    pub closed spec fn spec_pitch(&self) -> usize {
        self.pitch
    }

    pub closed spec fn spec_size(&self) -> usize {
        self.size
    }

    pub closed spec fn spec_handle(&self) -> u32 {
        self.handle
    }

    pub closed spec fn spec_mapped(&self) -> bool {
        self.mapping is Some
    }

    pub closed spec fn spec_fb_id(&self) -> Option<u32> {
        self.fb_id
    }

    /// The geometry came from the kernel's 32-bit fields.
    pub closed spec fn wf(&self) -> bool {
        self.width <= u32::MAX && self.height <= u32::MAX && self.pitch <= u32::MAX
    }

    /// Same buffer, same geometry and handle.
    pub open spec fn same_memory(&self, other: &Buffer<'a, T>) -> bool {
        &&& self.spec_width() == other.spec_width()
        &&& self.spec_height() == other.spec_height()
        &&& self.spec_pitch() == other.spec_pitch()
        &&& self.spec_size() == other.spec_size()
        &&& self.spec_handle() == other.spec_handle()
    }

    /// A buffer for the kernel's allocation, not mapped and not registered.
    /// Fails with `OutOfRangeError` when its byte size does not fit `usize`.
    pub fn new(dev: &'a Device<T>, dumb: RawDumbBuffer) -> (r: Result<Buffer<'a, T>, Error>)
        ensures
            dumb.size > usize::MAX ==> r == Err::<Buffer<'a, T>, Error>(Error::OutOfRangeError),
            dumb.size <= usize::MAX ==> (r matches Ok(b) && b.wf() && b.spec_width()
                == dumb.width && b.spec_height() == dumb.height && b.spec_pitch() == dumb.pitch
                && b.spec_size() == dumb.size && b.spec_handle() == dumb.handle && !b.spec_mapped()
                && b.spec_fb_id() is None && b.spec_dev() == *dev),
    {
        if dumb.size > usize::MAX as u64 {
            return Err(Error::OutOfRangeError);
        }
        Ok(Buffer {
            dev,
            width: dumb.width as usize,
            height: dumb.height as usize,
            pitch: dumb.pitch as usize,
            size: dumb.size as usize,
            handle: dumb.handle,
            mapping: None,
            fb_id: None,
        })
    }

    /// The id under which this buffer is registered as a framebuffer, if it is.
    pub fn get_framebuffer_id(&self) -> (r: Option<u32>)
        ensures
            r == self.spec_fb_id(),
    {
        self.fb_id
    }

    /// The CPU mapping of the buffer's memory, absent until `map` succeeds.
    pub fn get_data(&self) -> (r: Option<&T::Mapping>)
        ensures
            r is Some <==> self.spec_mapped(),
    {
        self.mapping.as_ref()
    }

    pub fn get_height(&self) -> (r: usize)
        ensures
            r == self.spec_height(),
    {
        self.height
    }

    /// The byte size the kernel reported.
    pub fn get_size(&self) -> (r: usize)
        ensures
            r == self.spec_size(),
    {
        self.size
    }

    pub fn get_width(&self) -> (r: usize)
        ensures
            r == self.spec_width(),
    {
        self.width
    }

    pub fn get_pitch(&self) -> (r: usize)
        ensures
            r == self.spec_pitch(),
    {
        self.pitch
    }

    pub fn get_handle(&self) -> (r: u32)
        ensures
            r == self.spec_handle(),
    {
        self.handle
    }

    /// Registers the buffer as a framebuffer of pixel format `fmt`, mapped or
    /// not. On failure the buffer is released.
    pub fn into_framebuffer(self, fmt: Format) -> (r: Result<Buffer<'a, T>, Error>)
        requires
            self.wf(),
        ensures
            r matches Ok(b) ==> b.wf() && b.same_memory(&self) && b.spec_mapped()
                == self.spec_mapped() && b.spec_fb_id() is Some,
    {
        let added = self.dev.raw.add_framebuffer(
            self.handle,
            self.width as u32,
            self.pitch as u32,
            self.height as u32,
            fmt.code(),
        );
        match added {
            Ok(fb_id) => {
                let mut b = self;
                b.fb_id = Some(fb_id);
                Ok(b)
            },
            Err(e) => {
                self.release();
                Err(e)
            },
        }
    }

    /// Maps the buffer's memory for CPU access, over its full reported size.
    /// Fails with `UnsupportedError` when it is mapped already. On failure the
    /// buffer is released.
    pub fn map(self) -> (r: Result<Buffer<'a, T>, Error>)
        requires
            self.wf(),
        ensures
            self.spec_mapped() ==> r == Err::<Buffer<'a, T>, Error>(Error::UnsupportedError),
            r matches Ok(b) ==> b.wf() && b.same_memory(&self) && b.spec_mapped()
                && b.spec_fb_id() == self.spec_fb_id(),
    {
        if self.mapping.is_some() {
            self.release();
            return Err(Error::UnsupportedError);
        }
        match self.dev.raw.map_dumb_buffer(self.handle, self.size) {
            Ok(m) => {
                let mut b = self;
                b.mapping = Some(m);
                Ok(b)
            },
            Err(e) => {
                self.release();
                Err(e)
            },
        }
    }

    /// The steps that releasing this buffer takes, in order.
    pub fn teardown_plan(&self) -> (r: Vec<TeardownStep>)
        ensures
            r@ == teardown_of(self.spec_mapped(), self.spec_fb_id(), self.spec_handle()),
    {
        let mut steps: Vec<TeardownStep> = Vec::new();
        if self.mapping.is_some() {
            steps.push(TeardownStep::Unmap);
        }
        match self.fb_id {
            Some(f) => steps.push(TeardownStep::RemoveFramebuffer(f)),
            None => {},
        }
        steps.push(TeardownStep::DestroyBuffer(self.handle));
        assert(steps@ =~= teardown_of(self.spec_mapped(), self.spec_fb_id(), self.spec_handle()));
        steps
    }

    /// Releases the buffer: runs every step of `teardown_plan` in order. A
    /// step that fails does not stop the later ones, and nothing is reported.
    pub fn release(self) {
        let plan = self.teardown_plan();
        let dev = self.dev;
        let mut mapping = self.mapping;
        let mut i: usize = 0;
        while i < plan.len()
            invariant
                i <= plan@.len(),
            decreases plan.len() - i,
        {
            match plan[i] {
                TeardownStep::Unmap => {
                    match mapping.take() {
                        Some(m) => {
                            let _ = dev.raw.unmap(m);
                        },
                        None => {},
                    }
                },
                TeardownStep::RemoveFramebuffer(f) => {
                    let _ = dev.raw.remove_framebuffer(f);
                },
                TeardownStep::DestroyBuffer(h) => {
                    let _ = dev.raw.destroy_dumb_buffer(h);
                },
            }
            i = i + 1;
        }
    }
}

} // verus!
