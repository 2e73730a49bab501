//! The VGA device model: register files, framebuffer windows, and the
//! mode-switching protocol.
//!
//! All hardware state is held in one [`VgaDevice`] value.  Mutation goes
//! through an exclusive `&mut` handle, mirroring the requirement that only
//! one logical owner may interleave index/data register writes.  Every
//! index/data write is recorded in order in [`VgaDevice::write_log`], so the
//! contracts can state exactly which writes a mode application performs.

use vstd::prelude::*;

verus! {

use crate::configurations::VgaConfiguration;
use crate::configurations::VgaConfigurationView;
use crate::modes::DisplayMode;
use crate::modes::lemma_mode_configuration_covers;
use crate::registers::AttributeControllerIndex;
use crate::registers::CrtcControllerIndex;
use crate::registers::GraphicsControllerIndex;
use crate::registers::RegisterWrite;
use crate::registers::SequencerIndex;
use crate::registers::ATTRIBUTE_REGISTER_COUNT;
use crate::registers::CRTC_REGISTER_COUNT;
use crate::registers::GRAPHICS_REGISTER_COUNT;
use crate::registers::SEQUENCER_REGISTER_COUNT;

/// Bytes per bit plane covering the visible region of the planar graphics
/// mode: 640 / 8 bytes per scan line, 480 scan lines.
pub const PLANE_SIZE: usize = 38400;

/// Bytes covering the visible region of the largest packed-byte graphics
/// mode: 320 x 240 pixels, one byte each.
pub const PACKED_SIZE: usize = 76800;

/// The latest value that the first `n` of `entries` write to register `r`,
/// or `dflt` when none of them touches `r`.
pub open spec fn written(entries: Seq<(int, u8)>, n: int, r: int, dflt: u8) -> u8
    decreases n,
{
    if n <= 0 {
        dflt
    } else if entries[n - 1].0 == r {
        entries[n - 1].1
    } else {
        written(entries, n - 1, r, dflt)
    }
}

/// When the first `n` entries write the registers `0..n` in ascending index
/// order, the latest write to `r` is entry `r` itself.
pub proof fn lemma_written_identity(entries: Seq<(int, u8)>, n: int, r: int, dflt: u8)
    requires
        0 <= r < n <= entries.len(),
        forall|j: int| 0 <= j < n ==> (#[trigger] entries[j]).0 == j,
    ensures
        written(entries, n, r, dflt) == entries[r].1,
    decreases n,
{
    if entries[n - 1].0 == r {
        assert(r == n - 1);
    } else {
        lemma_written_identity(entries, n - 1, r, dflt);
    }
}

/// The sequencer entries with their indices as plain integers.
pub open spec fn sequencer_entries(s: Seq<(SequencerIndex, u8)>) -> Seq<(int, u8)> {
    s.map_values(|e: (SequencerIndex, u8)| (e.0.index(), e.1))
}

/// The CRT controller entries with their indices as plain integers.
pub open spec fn crtc_entries(s: Seq<(CrtcControllerIndex, u8)>) -> Seq<(int, u8)> {
    s.map_values(|e: (CrtcControllerIndex, u8)| (e.0.index(), e.1))
}

/// The graphics controller entries with their indices as plain integers.
pub open spec fn graphics_entries(s: Seq<(GraphicsControllerIndex, u8)>) -> Seq<(int, u8)> {
    s.map_values(|e: (GraphicsControllerIndex, u8)| (e.0.index(), e.1))
}

/// The attribute controller entries with their indices as plain integers.
pub open spec fn attribute_entries(s: Seq<(AttributeControllerIndex, u8)>) -> Seq<(int, u8)> {
    s.map_values(|e: (AttributeControllerIndex, u8)| (e.0.index(), e.1))
}

/// The exact sequence of register writes that applying `c` performs: the
/// miscellaneous output first, then the sequencer, CRT controller, graphics
/// controller and attribute controller groups, each in table order.
pub open spec fn configuration_write_seq(c: VgaConfigurationView) -> Seq<RegisterWrite> {
    seq![RegisterWrite::MiscellaneousOutput(c.miscellaneous_output)]
        + c.sequencer_registers.map_values(
        |e: (SequencerIndex, u8)| RegisterWrite::Sequencer(e.0, e.1),
    ) + c.crtc_controller_registers.map_values(
        |e: (CrtcControllerIndex, u8)| RegisterWrite::CrtcController(e.0, e.1),
    ) + c.graphics_controller_registers.map_values(
        |e: (GraphicsControllerIndex, u8)| RegisterWrite::GraphicsController(e.0, e.1),
    ) + c.attribute_controller_registers.map_values(
        |e: (AttributeControllerIndex, u8)| RegisterWrite::AttributeController(e.0, e.1),
    )
}

/// The sequencer register values that mode `m`'s table establishes.
pub open spec fn mode_sequencer_state(m: DisplayMode) -> Seq<u8> {
    m.configuration_spec().sequencer_registers.map_values(|e: (SequencerIndex, u8)| e.1)
}

/// The CRT controller register values that mode `m`'s table establishes.
pub open spec fn mode_crtc_state(m: DisplayMode) -> Seq<u8> {
    m.configuration_spec().crtc_controller_registers.map_values(
        |e: (CrtcControllerIndex, u8)| e.1,
    )
}

/// The graphics controller register values that mode `m`'s table establishes.
pub open spec fn mode_graphics_state(m: DisplayMode) -> Seq<u8> {
    m.configuration_spec().graphics_controller_registers.map_values(
        |e: (GraphicsControllerIndex, u8)| e.1,
    )
}

/// The attribute controller register values that mode `m`'s table establishes.
pub open spec fn mode_attribute_state(m: DisplayMode) -> Seq<u8> {
    m.configuration_spec().attribute_controller_registers.map_values(
        |e: (AttributeControllerIndex, u8)| e.1,
    )
}

/// The whole modeled VGA hardware state.
pub struct VgaDevice {
    /// Current value of the miscellaneous output register.
    pub miscellaneous_output: u8,
    /// Current values of the sequencer registers, by index.
    pub sequencer: Vec<u8>,
    /// Current values of the CRT controller registers, by index.
    pub crtc_controller: Vec<u8>,
    /// Current values of the graphics controller registers, by index.
    pub graphics_controller: Vec<u8>,
    /// Current values of the attribute controller registers, by index.
    pub attribute_controller: Vec<u8>,
    /// State of the attribute controller's shared address/data port: true
    /// when the next write to it would be taken as data rather than an
    /// index.  An attribute register write needs this to be false first.
    pub attribute_expects_data: bool,
    /// Every index/data register write performed so far, in order.
    pub write_log: Vec<RegisterWrite>,
    /// The mode most recently applied by `set_mode`, if any.  Drawing is
    /// undefined before the first `set_mode` call.
    pub active_mode: Option<DisplayMode>,
    /// Bit plane 0 of the graphics window (planar encoding).
    pub plane0: Vec<u8>,
    /// Bit plane 1 of the graphics window (planar encoding).
    pub plane1: Vec<u8>,
    /// Bit plane 2 of the graphics window (planar encoding).
    pub plane2: Vec<u8>,
    /// Bit plane 3 of the graphics window (planar encoding).
    pub plane3: Vec<u8>,
    /// The graphics window under the packed-byte encoding.
    pub packed_memory: Vec<u8>,
}

impl VgaDevice {
    /// The register files and framebuffer regions have their fixed sizes.
    pub open spec fn wf(self) -> bool {
        &&& self.sequencer@.len() == SEQUENCER_REGISTER_COUNT
        &&& self.crtc_controller@.len() == CRTC_REGISTER_COUNT
        &&& self.graphics_controller@.len() == GRAPHICS_REGISTER_COUNT
        &&& self.attribute_controller@.len() == ATTRIBUTE_REGISTER_COUNT
        &&& self.plane0@.len() == PLANE_SIZE
        &&& self.plane1@.len() == PLANE_SIZE
        &&& self.plane2@.len() == PLANE_SIZE
        &&& self.plane3@.len() == PLANE_SIZE
        &&& self.packed_memory@.len() == PACKED_SIZE
    }

    /// The framebuffer contents and active mode of `self` are those of `pre`.
    pub open spec fn memory_unchanged_from(self, pre: VgaDevice) -> bool {
        &&& self.plane0@ == pre.plane0@
        &&& self.plane1@ == pre.plane1@
        &&& self.plane2@ == pre.plane2@
        &&& self.plane3@ == pre.plane3@
        &&& self.packed_memory@ == pre.packed_memory@
        &&& self.active_mode == pre.active_mode
    }

    /// The register files of `self` are those of `pre`.
    pub open spec fn registers_unchanged_from(self, pre: VgaDevice) -> bool {
        &&& self.miscellaneous_output == pre.miscellaneous_output
        &&& self.sequencer@ == pre.sequencer@
        &&& self.crtc_controller@ == pre.crtc_controller@
        &&& self.graphics_controller@ == pre.graphics_controller@
        &&& self.attribute_controller@ == pre.attribute_controller@
        &&& self.attribute_expects_data == pre.attribute_expects_data
    }

    /// A fresh device in its power-on state: all modeled registers and
    /// memory zero, no mode active, an empty write log.  Construction is
    /// the only way to obtain the exclusive handle to the hardware.
    pub fn new() -> (d: VgaDevice)
        ensures
            d.wf(),
            d.write_log@ == Seq::<RegisterWrite>::empty(),
            d.active_mode is None,
            !d.attribute_expects_data,
            d.miscellaneous_output == 0,
            forall|r: int| 0 <= r < SEQUENCER_REGISTER_COUNT ==> d.sequencer@[r] == 0,
            forall|r: int| 0 <= r < CRTC_REGISTER_COUNT ==> d.crtc_controller@[r] == 0,
            forall|r: int| 0 <= r < GRAPHICS_REGISTER_COUNT ==> d.graphics_controller@[r] == 0,
            forall|r: int| 0 <= r < ATTRIBUTE_REGISTER_COUNT ==> d.attribute_controller@[r] == 0,
    {
        VgaDevice {
            miscellaneous_output: 0,
            sequencer: zero_bytes(SEQUENCER_REGISTER_COUNT),
            crtc_controller: zero_bytes(CRTC_REGISTER_COUNT),
            graphics_controller: zero_bytes(GRAPHICS_REGISTER_COUNT),
            attribute_controller: zero_bytes(ATTRIBUTE_REGISTER_COUNT),
            attribute_expects_data: false,
            write_log: Vec::new(),
            active_mode: None,
            plane0: zero_bytes(PLANE_SIZE),
            plane1: zero_bytes(PLANE_SIZE),
            plane2: zero_bytes(PLANE_SIZE),
            plane3: zero_bytes(PLANE_SIZE),
            packed_memory: zero_bytes(PACKED_SIZE),
        }
    }

    /// Writes one (index, value) pair to the sequencer group: the index to
    /// its address port, then the value to its data port.
    pub fn write_sequencer(&mut self, index: SequencerIndex, value: u8)
        requires
            old(self).wf(),
        ensures
            final(self).wf(),
            final(self).sequencer@ == old(self).sequencer@.update(index.index(), value),
            final(self).write_log@ == old(self).write_log@.push(
                RegisterWrite::Sequencer(index, value),
            ),
            final(self).miscellaneous_output == old(self).miscellaneous_output,
            final(self).crtc_controller@ == old(self).crtc_controller@,
            final(self).graphics_controller@ == old(self).graphics_controller@,
            final(self).attribute_controller@ == old(self).attribute_controller@,
            final(self).attribute_expects_data == old(self).attribute_expects_data,
            final(self).memory_unchanged_from(*old(self)),
    {
        let i = index.to_index();
        self.sequencer[i as usize] = value;
        self.write_log.push(RegisterWrite::Sequencer(index, value));
    }

    /// Writes one (index, value) pair to the CRT controller group.
    pub fn write_crtc_controller(&mut self, index: CrtcControllerIndex, value: u8)
        requires
            old(self).wf(),
        ensures
            final(self).wf(),
            final(self).crtc_controller@ == old(self).crtc_controller@.update(
                index.index(),
                value,
            ),
            final(self).write_log@ == old(self).write_log@.push(
                RegisterWrite::CrtcController(index, value),
            ),
            final(self).miscellaneous_output == old(self).miscellaneous_output,
            final(self).sequencer@ == old(self).sequencer@,
            final(self).graphics_controller@ == old(self).graphics_controller@,
            final(self).attribute_controller@ == old(self).attribute_controller@,
            final(self).attribute_expects_data == old(self).attribute_expects_data,
            final(self).memory_unchanged_from(*old(self)),
    {
        let i = index.to_index();
        self.crtc_controller[i as usize] = value;
        self.write_log.push(RegisterWrite::CrtcController(index, value));
    }

    /// Writes one (index, value) pair to the graphics controller group.
    pub fn write_graphics_controller(&mut self, index: GraphicsControllerIndex, value: u8)
        requires
            old(self).wf(),
        ensures
            final(self).wf(),
            final(self).graphics_controller@ == old(self).graphics_controller@.update(
                index.index(),
                value,
            ),
            final(self).write_log@ == old(self).write_log@.push(
                RegisterWrite::GraphicsController(index, value),
            ),
            final(self).miscellaneous_output == old(self).miscellaneous_output,
            final(self).sequencer@ == old(self).sequencer@,
            final(self).crtc_controller@ == old(self).crtc_controller@,
            final(self).attribute_controller@ == old(self).attribute_controller@,
            final(self).attribute_expects_data == old(self).attribute_expects_data,
            final(self).memory_unchanged_from(*old(self)),
    {
        let i = index.to_index();
        self.graphics_controller[i as usize] = value;
        self.write_log.push(RegisterWrite::GraphicsController(index, value));
    }

    /// Writes one (index, value) pair to the attribute controller.  Its
    /// address and data share one port, told apart by the internal
    /// flip-flop, so the port must be in its index-expecting state first;
    /// the write toggles the flip-flop twice and leaves it there.
    pub fn write_attribute_controller(&mut self, index: AttributeControllerIndex, value: u8)
        requires
            old(self).wf(),
            !old(self).attribute_expects_data,
        ensures
            final(self).wf(),
            final(self).attribute_controller@ == old(self).attribute_controller@.update(
                index.index(),
                value,
            ),
            final(self).write_log@ == old(self).write_log@.push(
                RegisterWrite::AttributeController(index, value),
            ),
            final(self).miscellaneous_output == old(self).miscellaneous_output,
            final(self).sequencer@ == old(self).sequencer@,
            final(self).crtc_controller@ == old(self).crtc_controller@,
            final(self).graphics_controller@ == old(self).graphics_controller@,
            !final(self).attribute_expects_data,
            final(self).memory_unchanged_from(*old(self)),
    {
        let i = index.to_index();
        self.attribute_controller[i as usize] = value;
        self.write_log.push(RegisterWrite::AttributeController(index, value));
    }

    /// Resets the attribute controller's flip-flop to its index-expecting
    /// state, as reading the input status port does on hardware.  An odd
    /// number of earlier writes to the shared port would otherwise make the
    /// next index write land as data.
    pub fn reset_attribute_flip_flop(&mut self)
        ensures
            !final(self).attribute_expects_data,
            final(self).wf() == old(self).wf(),
            final(self).miscellaneous_output == old(self).miscellaneous_output,
            final(self).sequencer@ == old(self).sequencer@,
            final(self).crtc_controller@ == old(self).crtc_controller@,
            final(self).graphics_controller@ == old(self).graphics_controller@,
            final(self).attribute_controller@ == old(self).attribute_controller@,
            final(self).write_log@ == old(self).write_log@,
            final(self).memory_unchanged_from(*old(self)),
    {
        self.attribute_expects_data = false;
    }

    /// Writes the miscellaneous output register.  It has no index port.
    pub fn write_miscellaneous_output(&mut self, value: u8)
        ensures
            final(self).wf() == old(self).wf(),
            final(self).miscellaneous_output == value,
            final(self).write_log@ == old(self).write_log@.push(
                RegisterWrite::MiscellaneousOutput(value),
            ),
            final(self).sequencer@ == old(self).sequencer@,
            final(self).crtc_controller@ == old(self).crtc_controller@,
            final(self).graphics_controller@ == old(self).graphics_controller@,
            final(self).attribute_controller@ == old(self).attribute_controller@,
            final(self).attribute_expects_data == old(self).attribute_expects_data,
            final(self).memory_unchanged_from(*old(self)),
    {
        self.miscellaneous_output = value;
        self.write_log.push(RegisterWrite::MiscellaneousOutput(value));
    }

    /// Applies a register configuration: writes the miscellaneous output
    /// first, then every sequencer, CRT controller, graphics controller and
    /// attribute controller entry, each exactly once, in table order.  The
    /// write log extension is exactly the table's entries in that fixed
    /// group order.  A register that the table does not name keeps its
    /// previous value.
    pub fn apply(&mut self, config: &VgaConfiguration)
        requires
            old(self).wf(),
        ensures
            final(self).wf(),
            final(self).write_log@ == old(self).write_log@ + configuration_write_seq(config@),
            final(self).miscellaneous_output == config@.miscellaneous_output,
            forall|r: int|
                0 <= r < SEQUENCER_REGISTER_COUNT ==> final(self).sequencer@[r] == written(
                    sequencer_entries(config@.sequencer_registers),
                    config@.sequencer_registers.len() as int,
                    r,
                    old(self).sequencer@[r],
                ),
            forall|r: int|
                0 <= r < CRTC_REGISTER_COUNT ==> final(self).crtc_controller@[r] == written(
                    crtc_entries(config@.crtc_controller_registers),
                    config@.crtc_controller_registers.len() as int,
                    r,
                    old(self).crtc_controller@[r],
                ),
            forall|r: int|
                0 <= r < GRAPHICS_REGISTER_COUNT ==> final(self).graphics_controller@[r]
                    == written(
                    graphics_entries(config@.graphics_controller_registers),
                    config@.graphics_controller_registers.len() as int,
                    r,
                    old(self).graphics_controller@[r],
                ),
            forall|r: int|
                0 <= r < ATTRIBUTE_REGISTER_COUNT ==> final(self).attribute_controller@[r]
                    == written(
                    attribute_entries(config@.attribute_controller_registers),
                    config@.attribute_controller_registers.len() as int,
                    r,
                    old(self).attribute_controller@[r],
                ),
            !final(self).attribute_expects_data,
            final(self).memory_unchanged_from(*old(self)),
    {
        let ghost pre = *self;
        self.write_miscellaneous_output(config.miscellaneous_output);

        let mut k: usize = 0;
        while k < config.sequencer_registers.len()
            invariant
                self.wf(),
                k <= config.sequencer_registers.len(),
                self.write_log@ == pre.write_log@ + seq![
                    RegisterWrite::MiscellaneousOutput(config@.miscellaneous_output),
                ] + config@.sequencer_registers.take(k as int).map_values(
                    |e: (SequencerIndex, u8)| RegisterWrite::Sequencer(e.0, e.1),
                ),
                self.miscellaneous_output == config@.miscellaneous_output,
                forall|r: int|
                    0 <= r < SEQUENCER_REGISTER_COUNT ==> self.sequencer@[r] == written(
                        sequencer_entries(config@.sequencer_registers),
                        k as int,
                        r,
                        pre.sequencer@[r],
                    ),
                self.crtc_controller@ == pre.crtc_controller@,
                self.graphics_controller@ == pre.graphics_controller@,
                self.attribute_controller@ == pre.attribute_controller@,
                self.attribute_expects_data == pre.attribute_expects_data,
                self.memory_unchanged_from(pre),
            decreases config.sequencer_registers.len() - k,
        {
            let ghost st = *self;
            let (index, value) = config.sequencer_registers[k];
            self.write_sequencer(index, value);
            proof {
                assert(config@.sequencer_registers.take(k + 1 as int).map_values(
                    |e: (SequencerIndex, u8)| RegisterWrite::Sequencer(e.0, e.1),
                ) =~= config@.sequencer_registers.take(k as int).map_values(
                    |e: (SequencerIndex, u8)| RegisterWrite::Sequencer(e.0, e.1),
                ).push(RegisterWrite::Sequencer(index, value)));
                assert(self.write_log@ =~= pre.write_log@ + seq![
                    RegisterWrite::MiscellaneousOutput(config@.miscellaneous_output),
                ] + config@.sequencer_registers.take(k + 1 as int).map_values(
                    |e: (SequencerIndex, u8)| RegisterWrite::Sequencer(e.0, e.1),
                ));
                assert(sequencer_entries(config@.sequencer_registers)[k as int] == (index.index(), value));
                assert forall|r: int| 0 <= r < SEQUENCER_REGISTER_COUNT implies self.sequencer@[r]
                    == written(sequencer_entries(config@.sequencer_registers), k + 1 as int, r, pre.sequencer@[r]) by {
                    assert(self.sequencer@ == st.sequencer@.update(index.index(), value));
                    assert(st.sequencer@[r] == written(sequencer_entries(config@.sequencer_registers), k as int, r, pre.sequencer@[r]));
                }
            }
            k = k + 1;
        }

        let ghost after_sequencer = *self;
        let mut k: usize = 0;
        while k < config.crtc_controller_registers.len()
            invariant
                self.wf(),
                k <= config.crtc_controller_registers.len(),
                self.write_log@ == after_sequencer.write_log@
                    + config@.crtc_controller_registers.take(k as int).map_values(
                    |e: (CrtcControllerIndex, u8)| RegisterWrite::CrtcController(e.0, e.1),
                ),
                self.miscellaneous_output == after_sequencer.miscellaneous_output,
                self.sequencer@ == after_sequencer.sequencer@,
                forall|r: int|
                    0 <= r < CRTC_REGISTER_COUNT ==> self.crtc_controller@[r] == written(
                        crtc_entries(config@.crtc_controller_registers),
                        k as int,
                        r,
                        after_sequencer.crtc_controller@[r],
                    ),
                self.graphics_controller@ == after_sequencer.graphics_controller@,
                self.attribute_controller@ == after_sequencer.attribute_controller@,
                self.attribute_expects_data == after_sequencer.attribute_expects_data,
                self.memory_unchanged_from(after_sequencer),
            decreases config.crtc_controller_registers.len() - k,
        {
            let ghost st = *self;
            let (index, value) = config.crtc_controller_registers[k];
            self.write_crtc_controller(index, value);
            proof {
                assert(config@.crtc_controller_registers.take(k + 1 as int).map_values(
                    |e: (CrtcControllerIndex, u8)| RegisterWrite::CrtcController(e.0, e.1),
                ) =~= config@.crtc_controller_registers.take(k as int).map_values(
                    |e: (CrtcControllerIndex, u8)| RegisterWrite::CrtcController(e.0, e.1),
                ).push(RegisterWrite::CrtcController(index, value)));
                assert(self.write_log@ =~= after_sequencer.write_log@
                    + config@.crtc_controller_registers.take(k + 1 as int).map_values(
                    |e: (CrtcControllerIndex, u8)| RegisterWrite::CrtcController(e.0, e.1),
                ));
                assert(crtc_entries(config@.crtc_controller_registers)[k as int] == (index.index(), value));
                assert forall|r: int| 0 <= r < CRTC_REGISTER_COUNT implies self.crtc_controller@[r]
                    == written(crtc_entries(config@.crtc_controller_registers), k + 1 as int, r, after_sequencer.crtc_controller@[r]) by {
                    assert(self.crtc_controller@ == st.crtc_controller@.update(
                        index.index(),
                        value,
                    ));
                    assert(st.crtc_controller@[r] == written(
                        crtc_entries(config@.crtc_controller_registers),
                        k as int,
                        r,
                        after_sequencer.crtc_controller@[r],
                    ));
                }
            }
            k = k + 1;
        }

        let ghost after_crtc = *self;
        let mut k: usize = 0;
        while k < config.graphics_controller_registers.len()
            invariant
                self.wf(),
                k <= config.graphics_controller_registers.len(),
                self.write_log@ == after_crtc.write_log@
                    + config@.graphics_controller_registers.take(k as int).map_values(
                    |e: (GraphicsControllerIndex, u8)| RegisterWrite::GraphicsController(e.0, e.1),
                ),
                self.miscellaneous_output == after_crtc.miscellaneous_output,
                self.sequencer@ == after_crtc.sequencer@,
                self.crtc_controller@ == after_crtc.crtc_controller@,
                forall|r: int|
                    0 <= r < GRAPHICS_REGISTER_COUNT ==> self.graphics_controller@[r] == written(
                        graphics_entries(config@.graphics_controller_registers),
                        k as int,
                        r,
                        after_crtc.graphics_controller@[r],
                    ),
                self.attribute_controller@ == after_crtc.attribute_controller@,
                self.attribute_expects_data == after_crtc.attribute_expects_data,
                self.memory_unchanged_from(after_crtc),
            decreases config.graphics_controller_registers.len() - k,
        {
            let ghost st = *self;
            let (index, value) = config.graphics_controller_registers[k];
            self.write_graphics_controller(index, value);
            proof {
                assert(config@.graphics_controller_registers.take(k + 1 as int).map_values(
                    |e: (GraphicsControllerIndex, u8)| RegisterWrite::GraphicsController(e.0, e.1),
                ) =~= config@.graphics_controller_registers.take(k as int).map_values(
                    |e: (GraphicsControllerIndex, u8)| RegisterWrite::GraphicsController(e.0, e.1),
                ).push(RegisterWrite::GraphicsController(index, value)));
                assert(self.write_log@ =~= after_crtc.write_log@
                    + config@.graphics_controller_registers.take(k + 1 as int).map_values(
                    |e: (GraphicsControllerIndex, u8)| RegisterWrite::GraphicsController(
                        e.0,
                        e.1,
                    ),
                ));
                assert(graphics_entries(config@.graphics_controller_registers)[k as int] == (index.index(), value));
                assert forall|r: int|
                    0 <= r < GRAPHICS_REGISTER_COUNT implies self.graphics_controller@[r]
                    == written(
                    graphics_entries(config@.graphics_controller_registers),
                    k + 1 as int,
                    r,
                    after_crtc.graphics_controller@[r],
                ) by {
                    assert(self.graphics_controller@ == st.graphics_controller@.update(
                        index.index(),
                        value,
                    ));
                    assert(st.graphics_controller@[r] == written(
                        graphics_entries(config@.graphics_controller_registers),
                        k as int,
                        r,
                        after_crtc.graphics_controller@[r],
                    ));
                }
            }
            k = k + 1;
        }

        self.reset_attribute_flip_flop();

        let ghost after_graphics = *self;
        let mut k: usize = 0;
        while k < config.attribute_controller_registers.len()
            invariant
                self.wf(),
                k <= config.attribute_controller_registers.len(),
                self.write_log@ == after_graphics.write_log@
                    + config@.attribute_controller_registers.take(k as int).map_values(
                    |e: (AttributeControllerIndex, u8)| RegisterWrite::AttributeController(
                        e.0,
                        e.1,
                    ),
                ),
                self.miscellaneous_output == after_graphics.miscellaneous_output,
                self.sequencer@ == after_graphics.sequencer@,
                self.crtc_controller@ == after_graphics.crtc_controller@,
                self.graphics_controller@ == after_graphics.graphics_controller@,
                forall|r: int|
                    0 <= r < ATTRIBUTE_REGISTER_COUNT ==> self.attribute_controller@[r] == written(
                        attribute_entries(config@.attribute_controller_registers),
                        k as int,
                        r,
                        after_graphics.attribute_controller@[r],
                    ),
                !self.attribute_expects_data,
                self.memory_unchanged_from(after_graphics),
            decreases config.attribute_controller_registers.len() - k,
        {
            let ghost st = *self;
            let (index, value) = config.attribute_controller_registers[k];
            self.write_attribute_controller(index, value);
            proof {
                assert(config@.attribute_controller_registers.take(k + 1 as int).map_values(
                    |e: (AttributeControllerIndex, u8)| RegisterWrite::AttributeController(
                        e.0,
                        e.1,
                    ),
                ) =~= config@.attribute_controller_registers.take(k as int).map_values(
                    |e: (AttributeControllerIndex, u8)| RegisterWrite::AttributeController(
                        e.0,
                        e.1,
                    ),
                ).push(RegisterWrite::AttributeController(index, value)));
                assert(self.write_log@ =~= after_graphics.write_log@
                    + config@.attribute_controller_registers.take(k + 1 as int).map_values(
                    |e: (AttributeControllerIndex, u8)| RegisterWrite::AttributeController(
                        e.0,
                        e.1,
                    ),
                ));
                assert(attribute_entries(config@.attribute_controller_registers)[k as int] == (index.index(), value));
                assert forall|r: int|
                    0 <= r < ATTRIBUTE_REGISTER_COUNT implies self.attribute_controller@[r]
                    == written(
                    attribute_entries(config@.attribute_controller_registers),
                    k + 1 as int,
                    r,
                    after_graphics.attribute_controller@[r],
                ) by {
                    assert(self.attribute_controller@ == st.attribute_controller@.update(
                        index.index(),
                        value,
                    ));
                    assert(st.attribute_controller@[r] == written(
                        attribute_entries(config@.attribute_controller_registers),
                        k as int,
                        r,
                        after_graphics.attribute_controller@[r],
                    ));
                }
            }
            k = k + 1;
        }

        proof {
            assert(config@.sequencer_registers.take(
                config@.sequencer_registers.len() as int,
            ) =~= config@.sequencer_registers);
            assert(config@.crtc_controller_registers.take(
                config@.crtc_controller_registers.len() as int,
            ) =~= config@.crtc_controller_registers);
            assert(config@.graphics_controller_registers.take(
                config@.graphics_controller_registers.len() as int,
            ) =~= config@.graphics_controller_registers);
            assert(config@.attribute_controller_registers.take(
                config@.attribute_controller_registers.len() as int,
            ) =~= config@.attribute_controller_registers);
            assert(self.write_log@ =~= pre.write_log@ + configuration_write_seq(config@));
        }
    }
}

impl VgaDevice {
    /// Holds exactly when the register files and the active-mode descriptor
    /// are those that a single `set_mode(m)` establishes.  The state is a
    /// function of `m` alone — see `lemma_mode_state_deterministic`.
    pub open spec fn mode_applied(self, m: DisplayMode) -> bool {
        &&& self.miscellaneous_output == m.configuration_spec().miscellaneous_output
        &&& self.sequencer@ == mode_sequencer_state(m)
        &&& self.crtc_controller@ == mode_crtc_state(m)
        &&& self.graphics_controller@ == mode_graphics_state(m)
        &&& self.attribute_controller@ == mode_attribute_state(m)
        &&& self.active_mode == Some(m)
        &&& !self.attribute_expects_data
    }

    /// Switches the display to `mode`: applies its register configuration
    /// table and records the mode as active for all subsequent drawing.
    /// The resulting register state and memory-model descriptor depend on
    /// `mode` alone, not on any earlier state — re-applying a mode, in any
    /// order with others, is idempotent.  The framebuffer contents are not
    /// cleared or migrated.
    pub fn set_mode(&mut self, mode: DisplayMode)
        requires
            old(self).wf(),
        ensures
            final(self).wf(),
            final(self).mode_applied(mode),
            final(self).write_log@ == old(self).write_log@ + configuration_write_seq(
                mode.configuration_spec(),
            ),
            final(self).plane0@ == old(self).plane0@,
            final(self).plane1@ == old(self).plane1@,
            final(self).plane2@ == old(self).plane2@,
            final(self).plane3@ == old(self).plane3@,
            final(self).packed_memory@ == old(self).packed_memory@,
    {
        let config = mode.configuration();
        self.apply(&config);
        self.active_mode = Some(mode);
        proof {
            lemma_mode_configuration_covers(mode);
            let cs = config@.sequencer_registers;
            assert forall|j: int| 0 <= j < sequencer_entries(cs).len() implies (
            #[trigger] sequencer_entries(cs)[j]).0 == j by {
                assert(cs[j].0.index() == j);
            }
            assert forall|r: int|
                0 <= r < SEQUENCER_REGISTER_COUNT implies self.sequencer@[r]
                == mode_sequencer_state(mode)[r] by {
                lemma_written_identity(
                    sequencer_entries(cs),
                    cs.len() as int,
                    r,
                    old(self).sequencer@[r],
                );
            }
            assert(self.sequencer@ =~= mode_sequencer_state(mode));

            let cc = config@.crtc_controller_registers;
            assert forall|j: int| 0 <= j < crtc_entries(cc).len() implies (
            #[trigger] crtc_entries(cc)[j]).0 == j by {
                assert(cc[j].0.index() == j);
            }
            assert forall|r: int|
                0 <= r < CRTC_REGISTER_COUNT implies self.crtc_controller@[r] == mode_crtc_state(
                mode,
            )[r] by {
                lemma_written_identity(
                    crtc_entries(cc),
                    cc.len() as int,
                    r,
                    old(self).crtc_controller@[r],
                );
            }
            assert(self.crtc_controller@ =~= mode_crtc_state(mode));

            let cg = config@.graphics_controller_registers;
            assert forall|j: int| 0 <= j < graphics_entries(cg).len() implies (
            #[trigger] graphics_entries(cg)[j]).0 == j by {
                assert(cg[j].0.index() == j);
            }
            assert forall|r: int|
                0 <= r < GRAPHICS_REGISTER_COUNT implies self.graphics_controller@[r]
                == mode_graphics_state(mode)[r] by {
                lemma_written_identity(
                    graphics_entries(cg),
                    cg.len() as int,
                    r,
                    old(self).graphics_controller@[r],
                );
            }
            assert(self.graphics_controller@ =~= mode_graphics_state(mode));

            let ca = config@.attribute_controller_registers;
            assert forall|j: int| 0 <= j < attribute_entries(ca).len() implies (
            #[trigger] attribute_entries(ca)[j]).0 == j by {
                assert(ca[j].0.index() == j);
            }
            assert forall|r: int|
                0 <= r < ATTRIBUTE_REGISTER_COUNT implies self.attribute_controller@[r]
                == mode_attribute_state(mode)[r] by {
                lemma_written_identity(
                    attribute_entries(ca),
                    ca.len() as int,
                    r,
                    old(self).attribute_controller@[r],
                );
            }
            assert(self.attribute_controller@ =~= mode_attribute_state(mode));
        }
    }
}

/// Mode application has no accumulating side effects: any two devices in
/// the state that `set_mode(m)` leaves — one perhaps having passed through
/// other modes first, the other fresh from power-on — agree on the
/// miscellaneous output, on every register of every group, and on the
/// active mode with its memory-model descriptor.
pub proof fn lemma_mode_state_deterministic(a: VgaDevice, b: VgaDevice, m: DisplayMode)
    requires
        a.mode_applied(m),
        b.mode_applied(m),
    ensures
        a.miscellaneous_output == b.miscellaneous_output,
        a.sequencer@ == b.sequencer@,
        a.crtc_controller@ == b.crtc_controller@,
        a.graphics_controller@ == b.graphics_controller@,
        a.attribute_controller@ == b.attribute_controller@,
        a.active_mode == b.active_mode,
{
}

/// A byte vector of length `n`, all zero.
fn zero_bytes(n: usize) -> (v: Vec<u8>)
    ensures
        v@.len() == n,
        forall|i: int| 0 <= i < n ==> v@[i] == 0,
{
    let mut v: Vec<u8> = Vec::new();
    let mut k: usize = 0;
    while k < n
        invariant
            k <= n,
            v@.len() == k,
            forall|i: int| 0 <= i < k ==> v@[i] == 0,
        decreases n - k,
    {
        v.push(0);
        k = k + 1;
    }
    v
}

} // verus!
