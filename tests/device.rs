use std::cell::RefCell;

use doremi::AtomicProperty;
use doremi::AtomicRequest;
use doremi::connector::connector_ids;
use doremi::BufferType;
use doremi::ConnectorStatus;
use doremi::ConnectorType;
use doremi::Device;
use doremi::Error;
use doremi::Format;
use doremi::ModeInfo;
use doremi::Object;
use doremi::PipelineInit;
use doremi::RawConnector;
use doremi::RawDumbBuffer;
use doremi::RawEncoder;
use doremi::RawPlane;
use doremi::RawProperty;
use doremi::TeardownStep;
use doremi::Transport;

type Commit = (Vec<u32>, Vec<u32>, Vec<u32>, Vec<u64>, u32);

#[derive(Debug)]
struct Mock {
    connectors: Vec<RawConnector>,
    conn_encoders: Vec<(u32, Vec<u32>)>,
    conn_modes: Vec<(u32, Vec<ModeInfo>)>,
    encoders: Vec<RawEncoder>,
    crtcs: Vec<u32>,
    planes: Vec<RawPlane>,
    props: Vec<(u32, Vec<u32>)>,
    names: Vec<(u32, &'static str)>,
    refuse_caps: bool,
    fail_unmap: bool,
    fail_rmfb: bool,
    log: RefCell<Vec<String>>,
    commits: RefCell<Vec<Commit>>,
    blobs: RefCell<Vec<Vec<u8>>>,
}

fn name32(s: &str) -> [u8; 32] {
    let mut n = [0u8; 32];
    n[..s.len()].copy_from_slice(s.as_bytes());
    n
}

fn mode_1080p() -> ModeInfo {
    ModeInfo {
        clock: 148500,
        hdisplay: 1920,
        hsync_start: 2008,
        hsync_end: 2052,
        htotal: 2200,
        hskew: 0,
        vdisplay: 1080,
        vsync_start: 1084,
        vsync_end: 1089,
        vtotal: 1125,
        vscan: 0,
        vrefresh: 60,
        flags: 5,
        type_: 0x48,
        name: name32("1920x1080"),
    }
}

fn standard() -> Mock {
    Mock {
        connectors: vec![
            RawConnector {
                connector_id: 30,
                connector_type: 11,
                connector_type_id: 1,
                connection: 1,
                mm_width: 600,
                mm_height: 340,
            },
            RawConnector {
                connector_id: 31,
                connector_type: 10,
                connector_type_id: 2,
                connection: 2,
                mm_width: 0,
                mm_height: 0,
            },
        ],
        conn_encoders: vec![(30, vec![40, 41]), (31, vec![42, 41])],
        conn_modes: vec![(30, vec![mode_1080p()]), (31, vec![])],
        encoders: vec![
            RawEncoder { encoder_id: 40, encoder_type: 2, possible_crtcs: 0b01 },
            RawEncoder { encoder_id: 41, encoder_type: 2, possible_crtcs: 0b10 },
            RawEncoder { encoder_id: 42, encoder_type: 2, possible_crtcs: 0 },
        ],
        crtcs: vec![50, 51],
        planes: vec![
            RawPlane { plane_id: 60, possible_crtcs: 0b01 },
            RawPlane { plane_id: 61, possible_crtcs: 0b10 },
            RawPlane { plane_id: 62, possible_crtcs: 0b11 },
        ],
        props: vec![
            (60, vec![1, 2, 3, 4, 5, 6, 7, 8, 9, 10]),
            (50, vec![20, 21]),
            (30, vec![22]),
            (61, vec![12, 1, 11]),
        ],
        names: vec![
            (1, "FB_ID"),
            (2, "CRTC_ID"),
            (3, "SRC_X"),
            (4, "SRC_Y"),
            (5, "SRC_H"),
            (6, "SRC_W"),
            (7, "CRTC_X"),
            (8, "CRTC_Y"),
            (9, "CRTC_H"),
            (10, "CRTC_W"),
            (20, "MODE_ID"),
            (21, "ACTIVE"),
            (22, "CRTC_ID"),
            (11, "FB_ID"),
            (12, "ZPOS"),
        ],
        refuse_caps: false,
        fail_unmap: false,
        fail_rmfb: false,
        log: RefCell::new(Vec::new()),
        commits: RefCell::new(Vec::new()),
        blobs: RefCell::new(Vec::new()),
    }
}

impl Mock {
    fn note(&self, s: String) {
        self.log.borrow_mut().push(s);
    }
}

impl Transport for Mock {
    type Mapping = Vec<u8>;

    fn set_client_capability(&self, cap: u64) -> Result<(), Error> {
        self.note(format!("cap {}", cap));
        if self.refuse_caps {
            Err(Error::IOError)
        } else {
            Ok(())
        }
    }

    fn get_connectors(&self) -> Result<Vec<RawConnector>, Error> {
        Ok(self.connectors.clone())
    }

    fn get_connector_modes(&self, id: u32) -> Result<Vec<ModeInfo>, Error> {
        self.conn_modes.iter().find(|c| c.0 == id).map(|c| c.1.clone()).ok_or(Error::IOError)
    }

    fn get_connector_encoders(&self, id: u32) -> Result<Vec<u32>, Error> {
        self.conn_encoders.iter().find(|c| c.0 == id).map(|c| c.1.clone()).ok_or(Error::IOError)
    }

    fn get_encoder(&self, id: u32) -> Result<RawEncoder, Error> {
        self.encoders.iter().find(|e| e.encoder_id == id).copied().ok_or(Error::IOError)
    }

    fn get_crtcs(&self) -> Result<Vec<u32>, Error> {
        Ok(self.crtcs.clone())
    }

    fn get_planes(&self) -> Result<Vec<u32>, Error> {
        Ok(self.planes.iter().map(|p| p.plane_id).collect())
    }

    fn get_plane(&self, id: u32) -> Result<RawPlane, Error> {
        self.planes.iter().find(|p| p.plane_id == id).copied().ok_or(Error::IOError)
    }

    fn get_properties(&self, _object_type: u32, object_id: u32) -> Result<Vec<u32>, Error> {
        Ok(self.props.iter().find(|p| p.0 == object_id).map(|p| p.1.clone()).unwrap_or_default())
    }

    fn get_property(&self, id: u32) -> Result<RawProperty, Error> {
        let name = self.names.iter().find(|n| n.0 == id).ok_or(Error::IOError)?.1;
        Ok(RawProperty { prop_id: id, name: name32(name) })
    }

    fn allocate_dumb_buffer(&self, width: u32, height: u32, bpp: u32) -> Result<RawDumbBuffer, Error> {
        let pitch = width * bpp / 8;
        Ok(RawDumbBuffer { width, height, bpp, handle: 3, pitch, size: (pitch * height) as u64 })
    }

    fn destroy_dumb_buffer(&self, handle: u32) -> Result<(), Error> {
        self.note(format!("destroy {}", handle));
        Ok(())
    }

    fn map_dumb_buffer(&self, handle: u32, size: usize) -> Result<Vec<u8>, Error> {
        self.note(format!("map {} {}", handle, size));
        Ok(vec![0u8; size])
    }

    fn unmap(&self, mapping: Vec<u8>) -> Result<(), Error> {
        self.note(format!("unmap {}", mapping.len()));
        if self.fail_unmap {
            Err(Error::IOError)
        } else {
            Ok(())
        }
    }

    fn add_framebuffer(&self, handle: u32, width: u32, pitch: u32, height: u32, fmt: u32) -> Result<u32, Error> {
        self.note(format!("addfb {} {} {} {} {:x}", handle, width, pitch, height, fmt));
        Ok(7)
    }

    fn remove_framebuffer(&self, fb_id: u32) -> Result<(), Error> {
        self.note(format!("rmfb {}", fb_id));
        if self.fail_rmfb {
            Err(Error::IOError)
        } else {
            Ok(())
        }
    }

    fn create_property_blob(&self, data: &Vec<u8>) -> Result<u32, Error> {
        self.blobs.borrow_mut().push(data.clone());
        Ok(99)
    }

    fn atomic_commit(
        &self,
        objects: &Vec<u32>,
        counts: &Vec<u32>,
        props: &Vec<u32>,
        values: &Vec<u64>,
        flags: u32,
    ) -> Result<(), Error> {
        self.commits.borrow_mut().push((
            objects.clone(),
            counts.clone(),
            props.clone(),
            values.clone(),
            flags,
        ));
        Ok(())
    }

    fn set_crtc(
        &self,
        fb_id: u32,
        crtc_id: u32,
        connectors: &Vec<u32>,
        x: u32,
        y: u32,
        mode: Option<ModeInfo>,
    ) -> Result<(), Error> {
        self.note(format!("setcrtc {} {} {:?} {} {} {}", fb_id, crtc_id, connectors, x, y, mode.is_some()));
        Ok(())
    }

    fn set_plane(&self, fb_id: u32, plane_id: u32, crtc_id: u32, w: u32, h: u32) -> Result<(), Error> {
        self.note(format!("setplane {} {} {} {} {}", fb_id, plane_id, crtc_id, w, h));
        Ok(())
    }
}

fn log_of(dev: &Device<Mock>) -> Vec<String> {
    dev.get_raw().log.borrow().clone()
}

#[test]
fn device_negotiates_atomic_then_universal_planes() {
    let dev = Device::new(standard()).unwrap();
    assert_eq!(log_of(&dev), vec!["cap 3", "cap 2"]);
}

#[test]
fn device_fails_when_a_capability_is_refused() {
    let mut m = standard();
    m.refuse_caps = true;
    assert_eq!(Device::new(m).unwrap_err(), Error::IOError);
}

#[test]
fn connectors_are_described() {
    let dev = Device::new(standard()).unwrap();
    let cons = dev.get_connectors().unwrap();
    assert_eq!(cons.len(), 2);
    assert_eq!(cons[0].get_id(), 30);
    assert_eq!(cons[0].get_index(), 0);
    assert_eq!(cons[0].get_status(), ConnectorStatus::Connected);
    assert_eq!(cons[0].get_type(), ConnectorType::HDMIA);
    assert_eq!(cons[0].get_size_mm(), (600, 340));
    assert_eq!(cons[1].get_index(), 1);
    assert_eq!(cons[1].get_status(), ConnectorStatus::Disconnected);
    let modes = cons[0].get_modes().unwrap();
    assert_eq!(modes.len(), 1);
    assert_eq!(modes[0].width(), 1920);
    assert_eq!(modes[0].get_name(), "1920x1080");
}

#[test]
fn zero_type_index_is_out_of_range() {
    let mut m = standard();
    m.connectors[0].connector_type_id = 0;
    let dev = Device::new(m).unwrap();
    assert_eq!(dev.get_connectors().unwrap_err(), Error::OutOfRangeError);
}

#[test]
fn compatibility_follows_enumeration_order() {
    let dev = Device::new(standard()).unwrap();
    let cons = dev.get_connectors().unwrap();
    let encs = cons[0].get_encoders().unwrap();
    let enc_ids: Vec<u32> = encs.iter().map(|e| e.get_id()).collect();
    assert_eq!(enc_ids, vec![40, 41]);
    let crtcs = encs[1].get_possible_crtcs().unwrap();
    let crtc_ids: Vec<u32> = crtcs.iter().map(|c| c.get_id()).collect();
    assert_eq!(crtc_ids, vec![51]);
    let planes = crtcs[0].get_possible_planes().unwrap();
    let plane_ids: Vec<u32> = planes.iter().map(|p| p.get_id()).collect();
    assert_eq!(plane_ids, vec![61, 62]);
    let back = planes[1].get_possible_crtcs().unwrap();
    let back_ids: Vec<u32> = back.iter().map(|c| c.get_id()).collect();
    assert_eq!(back_ids, vec![50, 51]);
}

#[test]
fn property_ids_are_resolved_by_name() {
    let dev = Device::new(standard()).unwrap();
    let planes = dev.get_planes().unwrap();
    assert_eq!(planes[0].get_property_id("SRC_W"), Ok(6));
    assert_eq!(planes[0].get_property_id("NOPE"), Err(Error::NoneError));
    let props = dev.get_properties(&planes[0]).unwrap();
    assert_eq!(props.len(), 10);
    assert_eq!(props[2].get_name(), "SRC_X");
}

#[test]
fn lookup_takes_the_first_property_of_that_name() {
    let dev = Device::new(standard()).unwrap();
    let planes = dev.get_planes().unwrap();
    assert_eq!(planes[1].get_property_id("FB_ID"), Ok(1));
    assert_eq!(planes[1].get_property_id("ZPOS"), Ok(12));
    assert_eq!(planes[2].get_property_id("FB_ID"), Err(Error::NoneError));
}

#[test]
fn add_property_with_unknown_name_is_none_error() {
    let dev = Device::new(standard()).unwrap();
    let crtcs = dev.get_crtcs().unwrap();
    let r = AtomicRequest::new(&dev).add_property(&crtcs[0], "NOPE", 1);
    assert_eq!(r.err(), Some(Error::NoneError));
}

#[test]
fn connector_ids_keep_order() {
    let dev = Device::new(standard()).unwrap();
    let cons = dev.get_connectors().unwrap();
    assert_eq!(connector_ids(&[&cons[1], &cons[0]]), vec![31, 30]);
    assert_eq!(connector_ids::<Mock>(&[]), Vec::<u32>::new());
}

#[test]
fn discover_does_not_backtrack() {
    let dev = Device::new(standard()).unwrap();
    let mut cons = dev.get_connectors().unwrap();
    let second = cons.remove(1);
    // its first encoder drives no CRTC; the second one would
    let r = PipelineInit::new(&dev).discover(second);
    assert_eq!(r.err(), Some(Error::NoneError));
}

#[test]
fn discovered_chain_is_first_fit_and_commits() {
    let dev = Device::new(standard()).unwrap();
    let mut cons = dev.get_connectors().unwrap();
    let con = cons.remove(0);
    let mode = con.get_modes().unwrap().remove(0);
    let buffer = dev
        .allocate_buffer(BufferType::Dumb, 640, 480, 32)
        .unwrap()
        .into_framebuffer(Format::XRGB8888)
        .unwrap();
    let pipeline = PipelineInit::new(&dev)
        .discover(con)
        .unwrap()
        .set_mode(mode)
        .set_buffer(&buffer)
        .set_plane_coordinates(-5, 7)
        .build()
        .unwrap();
    let commits = dev.get_raw().commits.borrow().clone();
    assert_eq!(commits.len(), 1);
    let (objects, counts, props, values, flags) = commits[0].clone();
    assert_eq!(objects, vec![30, 50, 60]);
    assert_eq!(counts, vec![1, 2, 10]);
    assert_eq!(props, vec![22, 20, 21, 1, 2, 3, 4, 5, 6, 7, 8, 9, 10]);
    assert_eq!(
        values,
        vec![50, 99, 1, 7, 50, 0, 0, 480 << 16, 640 << 16, (-5i64) as u64, 7, 480, 640]
    );
    assert_eq!(flags, 0x0400);
    assert_eq!(dev.get_raw().blobs.borrow()[0], mode_1080p().to_bytes());
    assert_eq!(pipeline.get_properties().len(), 13);
}

fn build_without(skip: &str) -> Result<(), Error> {
    let dev = Device::new(standard()).unwrap();
    let mut cons = dev.get_connectors().unwrap();
    let con = cons.remove(0);
    let mode = con.get_modes().unwrap().remove(0);
    let enc = con.get_encoders().unwrap().remove(0);
    let crtc = dev.get_crtcs().unwrap().remove(0);
    let plane = dev.get_planes().unwrap().remove(0);
    let buffer = dev
        .allocate_buffer(BufferType::Dumb, 64, 32, 32)
        .unwrap()
        .into_framebuffer(Format::XRGB8888)
        .unwrap();
    let mut init = PipelineInit::new(&dev);
    if skip != "buffer" {
        init = init.set_buffer(&buffer);
    }
    if skip != "mode" {
        init = init.set_mode(mode);
    }
    if skip != "plane" {
        init = init.set_plane(plane);
    }
    if skip != "crtc" {
        init = init.set_crtc(crtc);
    }
    if skip != "encoder" {
        init = init.set_encoder(enc);
    }
    if skip != "connector" {
        init = init.set_connector(con);
    }
    let r = init.build().map(|_| ());
    if r.is_err() {
        assert!(dev.get_raw().commits.borrow().is_empty());
    }
    r
}

#[test]
fn build_needs_a_buffer() {
    assert_eq!(build_without("buffer"), Err(Error::UninitializedError));
}

#[test]
fn build_needs_a_mode() {
    assert_eq!(build_without("mode"), Err(Error::UninitializedError));
}

#[test]
fn build_needs_a_plane() {
    assert_eq!(build_without("plane"), Err(Error::UninitializedError));
}

#[test]
fn build_needs_a_crtc() {
    assert_eq!(build_without("crtc"), Err(Error::UninitializedError));
}

#[test]
fn build_needs_an_encoder() {
    assert_eq!(build_without("encoder"), Err(Error::UninitializedError));
}

#[test]
fn build_needs_a_connector() {
    assert_eq!(build_without("connector"), Err(Error::UninitializedError));
}

#[test]
fn build_with_every_slot_succeeds() {
    assert_eq!(build_without("nothing"), Ok(()));
}

#[test]
fn build_needs_a_registered_buffer() {
    let dev = Device::new(standard()).unwrap();
    let con = dev.get_connectors().unwrap().remove(0);
    let mode = con.get_modes().unwrap().remove(0);
    let buffer = dev.allocate_buffer(BufferType::Dumb, 64, 32, 32).unwrap();
    let r = PipelineInit::new(&dev)
        .discover(con)
        .unwrap()
        .set_mode(mode)
        .set_buffer(&buffer)
        .build();
    assert_eq!(r.err(), Some(Error::UninitializedError));
    assert!(dev.get_raw().blobs.borrow().is_empty());
}

#[test]
fn updates_replace_writes_until_commit() {
    let dev = Device::new(standard()).unwrap();
    let con = dev.get_connectors().unwrap().remove(0);
    let mode = con.get_modes().unwrap().remove(0);
    let first = dev
        .allocate_buffer(BufferType::Dumb, 64, 32, 32)
        .unwrap()
        .into_framebuffer(Format::XRGB8888)
        .unwrap();
    let second = dev
        .allocate_buffer(BufferType::Dumb, 128, 64, 32)
        .unwrap()
        .into_framebuffer(Format::XRGB8888)
        .unwrap();
    let pipeline = PipelineInit::new(&dev)
        .discover(con)
        .unwrap()
        .set_mode(mode)
        .set_buffer(&first)
        .set_plane_dimensions(100, 50)
        .build()
        .unwrap();
    let pipeline = pipeline
        .update_buffer(&second)
        .unwrap()
        .update_plane_size(128, 64)
        .unwrap()
        .update_plane_display_size(256, 128)
        .unwrap()
        .update_plane_coordinates(3, 4)
        .unwrap();
    assert_eq!(dev.get_raw().commits.borrow().len(), 1);
    let pipeline = pipeline.commit().unwrap();
    let commits = dev.get_raw().commits.borrow().clone();
    assert_eq!(commits.len(), 2);
    let (objects, counts, props, values, _) = commits[1].clone();
    assert_eq!(objects, vec![30, 50, 60]);
    assert_eq!(counts, vec![1, 2, 10]);
    assert_eq!(props, vec![22, 20, 21, 1, 2, 3, 4, 5, 6, 7, 8, 9, 10]);
    assert_eq!(values, vec![50, 99, 1, 7, 50, 0, 0, 64 << 16, 128 << 16, 3, 4, 128, 256]);
    assert_eq!(pipeline.get_properties().len(), 13);
}

#[test]
fn update_buffer_needs_a_registered_buffer() {
    let dev = Device::new(standard()).unwrap();
    let con = dev.get_connectors().unwrap().remove(0);
    let mode = con.get_modes().unwrap().remove(0);
    let first = dev
        .allocate_buffer(BufferType::Dumb, 64, 32, 32)
        .unwrap()
        .into_framebuffer(Format::XRGB8888)
        .unwrap();
    let bare = dev.allocate_buffer(BufferType::Dumb, 64, 32, 32).unwrap();
    let pipeline = PipelineInit::new(&dev)
        .discover(con)
        .unwrap()
        .set_mode(mode)
        .set_buffer(&first)
        .build()
        .unwrap();
    assert_eq!(pipeline.update_buffer(&bare).err(), Some(Error::UninitializedError));
}

#[test]
fn plane_size_out_of_range() {
    let dev = Device::new(standard()).unwrap();
    let con = dev.get_connectors().unwrap().remove(0);
    let mode = con.get_modes().unwrap().remove(0);
    let first = dev
        .allocate_buffer(BufferType::Dumb, 64, 32, 32)
        .unwrap()
        .into_framebuffer(Format::XRGB8888)
        .unwrap();
    let pipeline = PipelineInit::new(&dev)
        .discover(con)
        .unwrap()
        .set_mode(mode)
        .set_buffer(&first)
        .build()
        .unwrap();
    assert_eq!(pipeline.update_plane_size(usize::MAX, 1).err(), Some(Error::OutOfRangeError));
}

#[test]
fn update_needs_an_existing_key_and_add_does_not() {
    let dev = Device::new(standard()).unwrap();
    let planes = dev.get_planes().unwrap();
    let req = AtomicRequest::new(&dev);
    let r = AtomicRequest::new(&dev).update_property(&planes[0], "FB_ID", 1);
    assert_eq!(r.err(), Some(Error::UninitializedError));
    let req = req
        .add_property(&planes[0], "FB_ID", 1)
        .unwrap()
        .add_property(&planes[0], "FB_ID", 2)
        .unwrap();
    assert_eq!(req.get_properties().len(), 2);
    let req = req.update_property(&planes[0], "FB_ID", 9).unwrap();
    let values: Vec<u64> = req.get_properties().iter().map(|p| p.value).collect();
    assert_eq!(values, vec![9, 2]);
    let other = req.replace_property(AtomicProperty::new(60, 5, 0));
    assert_eq!(other.err(), Some(Error::UninitializedError));
}

#[test]
fn empty_request_commit_is_refused() {
    let dev = Device::new(standard()).unwrap();
    assert_eq!(AtomicRequest::new(&dev).commit(), Err(Error::NoneError));
    assert!(dev.get_raw().commits.borrow().is_empty());
}

#[test]
fn data_is_absent_until_mapped() {
    let dev = Device::new(standard()).unwrap();
    let buffer = dev.allocate_buffer(BufferType::Dumb, 64, 32, 32).unwrap();
    assert_eq!(buffer.get_size(), 64 * 4 * 32);
    assert!(buffer.get_data().is_none());
    let buffer = buffer.map().unwrap();
    assert_eq!(buffer.get_data().unwrap().len(), buffer.get_size());
    assert_eq!(buffer.get_width(), 64);
    assert_eq!(buffer.get_height(), 32);
    assert_eq!(buffer.get_pitch(), 256);
}

#[test]
fn mapping_twice_is_refused() {
    let dev = Device::new(standard()).unwrap();
    let buffer = dev.allocate_buffer(BufferType::Dumb, 8, 8, 32).unwrap().map().unwrap();
    assert_eq!(buffer.map().err(), Some(Error::UnsupportedError));
}

#[test]
fn oversized_allocation_is_out_of_range() {
    let dev = Device::new(standard()).unwrap();
    let r = dev.allocate_buffer(BufferType::Dumb, 1usize << 40, 8, 32);
    assert_eq!(r.err(), Some(Error::OutOfRangeError));
}

#[test]
fn teardown_runs_every_step_in_order_despite_failures() {
    let mut m = standard();
    m.fail_unmap = true;
    m.fail_rmfb = true;
    let dev = Device::new(m).unwrap();
    let buffer = dev
        .allocate_buffer(BufferType::Dumb, 16, 16, 32)
        .unwrap()
        .map()
        .unwrap()
        .into_framebuffer(Format::RGB888)
        .unwrap();
    assert_eq!(
        buffer.teardown_plan(),
        vec![TeardownStep::Unmap, TeardownStep::RemoveFramebuffer(7), TeardownStep::DestroyBuffer(3)]
    );
    dev.get_raw().log.borrow_mut().clear();
    buffer.release();
    assert_eq!(log_of(&dev), vec!["unmap 1024", "rmfb 7", "destroy 3"]);
}

#[test]
fn teardown_of_a_bare_buffer_only_destroys() {
    let dev = Device::new(standard()).unwrap();
    let buffer = dev.allocate_buffer(BufferType::Dumb, 16, 16, 32).unwrap();
    assert_eq!(buffer.teardown_plan(), vec![TeardownStep::DestroyBuffer(3)]);
    dev.get_raw().log.borrow_mut().clear();
    buffer.release();
    assert_eq!(log_of(&dev), vec!["destroy 3"]);
}

#[test]
fn framebuffer_registration_passes_geometry_and_format() {
    let dev = Device::new(standard()).unwrap();
    let buffer = dev
        .allocate_buffer(BufferType::Dumb, 16, 8, 32)
        .unwrap()
        .into_framebuffer(Format::RGB888)
        .unwrap();
    assert_eq!(buffer.get_framebuffer_id(), Some(7));
    assert!(log_of(&dev).contains(&"addfb 3 16 64 8 34324752".to_string()));
}

#[test]
fn legacy_scanout_needs_a_framebuffer() {
    let dev = Device::new(standard()).unwrap();
    let cons = dev.get_connectors().unwrap();
    let crtc = dev.get_crtcs().unwrap().remove(0);
    let plane = dev.get_planes().unwrap().remove(0);
    let bare = dev.allocate_buffer(BufferType::Dumb, 16, 8, 32).unwrap();
    assert_eq!(dev.set_crtc(&bare, &crtc, &[&cons[0]], 0, 0, None), Err(Error::UninitializedError));
    assert_eq!(dev.set_plane(&bare, &plane, &crtc, 16, 8), Err(Error::UninitializedError));
    let fb = dev
        .allocate_buffer(BufferType::Dumb, 16, 8, 32)
        .unwrap()
        .into_framebuffer(Format::RGB888)
        .unwrap();
    assert_eq!(dev.set_crtc(&fb, &crtc, &[&cons[0]], 1, 2, None), Ok(()));
    assert_eq!(dev.set_plane(&fb, &plane, &crtc, 16, 8), Ok(()));
    let log = log_of(&dev);
    assert!(log.contains(&"setcrtc 7 50 [30] 1 2 false".to_string()));
    assert!(log.contains(&"setplane 7 60 50 16 8".to_string()));
}
