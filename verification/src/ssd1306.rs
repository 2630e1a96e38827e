//! The SSD1306 driver: display buffer, lifecycle and bus protocol.
//!
//! An operation changes the display buffer and queues the bus requests that
//! bring the controller up to date. The caller takes the requests one at a
//! time from [`ssd1306::next_request`], carries each out on the bus and
//! reports the outcome to [`ssd1306::on_bus_event`]. The first failure drops
//! what is still queued and ends the operation with a transport error.
use vstd::prelude::*;
use crate::commands::{config_bytes, config_sequence, Commands};
use crate::framebuffer::{
    filled, in_bounds, with_pixel, zeroed, DisplayBuffer, CELL_OFFSET, DISPLAY_BUFFER_SZ,
};
use crate::i2c_support::{
    command_transfer, data_transfer, raw_transfer, write_cmd, write_data, BusRequest, Transfer,
    DATA_CONTROL,
};

verus! {

/// Bus address of the controller.
pub const OLED_ADDR: u16 = 0x3C;

/// Where a driver stands in its life.
#[derive(Clone, Copy, Debug, PartialEq, Eq, Structural)]
pub enum DriverState {
    /// Constructed; the controller has not been configured.
    Uninitialized,
    /// Configured and accepting drawing operations.
    Ready,
    /// Blanked and switched off; nothing leads out of this state.
    Closed,
}

/// The operation whose bus requests are outstanding.
#[derive(Clone, Copy, Debug, PartialEq, Eq, Structural)]
pub enum Activity {
    /// No request is outstanding.
    Idle,
    /// The power-up sequence is going out.
    Initializing,
    /// The display buffer is going out after a fill or a pixel.
    Transmitting,
    /// The blank buffer and the display-off command are going out.
    Closing,
}

/// Why an operation did not take place.
#[derive(Clone, Copy, Debug, PartialEq, Eq, Structural)]
pub enum DriverError {
    /// A bus transaction failed.
    Transport,
    /// The operation is not allowed in the driver's present state.
    Sequence,
    /// The pixel lies outside the panel.
    Range,
}

/// How the bus transaction of the request at the head of the queue went.
#[derive(Clone, Copy, Debug, PartialEq, Eq, Structural)]
pub enum BusEvent {
    /// The transaction completed.
    Delivered,
    /// The bus or the device rejected the transaction.
    Failed,
}

/// The result of an operation that did not take place because of `error`.
pub open spec fn refused(error: DriverError) -> Result<(), DriverError> {
    Err(error)
}

/// The requests of the power-up sequence for the device at `address`: select
/// the device, send the configuration one command byte per transaction, then
/// send the blank display buffer unframed.
pub open spec fn init_script(address: u16) -> Seq<Transfer> {
    seq![Transfer::SetSlaveAddress { address }] + command_script(config_bytes())
        + seq![raw_transfer(zeroed(DISPLAY_BUFFER_SZ as nat))]
}

/// One command transfer for each byte of `bytes`, in order.
pub open spec fn command_script(bytes: Seq<u8>) -> Seq<Transfer> {
    Seq::new(bytes.len(), |i: int| command_transfer(bytes[i]))
}

/// The requests that shut the panel down: the buffer `frame` unframed, its
/// cells once more as framed display data, then the display-off command.
pub open spec fn close_script(frame: Seq<u8>) -> Seq<Transfer> {
    seq![
        raw_transfer(frame),
        data_transfer(frame.subrange(CELL_OFFSET as int, frame.len() as int)),
        command_transfer(Commands::DISPLAY_OFF.spec_code()),
    ]
}

/// The display buffer of a blanked panel: the data control byte, then zeros.
pub open spec fn blank_frame() -> Seq<u8> {
    zeroed(DISPLAY_BUFFER_SZ as nat).update(0, DATA_CONTROL)
}

/// Whether `tail` is what is left of `script` after some of its first
/// requests.
pub open spec fn is_rest_of(tail: Seq<Transfer>, script: Seq<Transfer>) -> bool {
    tail.len() <= script.len() && tail == script.skip(script.len() - tail.len())
}

/// What is left after one more request is again the rest of the script.
proof fn lemma_rest_of_skip(tail: Seq<Transfer>, script: Seq<Transfer>)
    requires
        tail.len() > 0,
    ensures
        is_rest_of(tail, script) ==> is_rest_of(tail.skip(1), script),
{
    if is_rest_of(tail, script) {
        assert(tail.skip(1) =~= script.skip(script.len() - tail.skip(1).len()));
    }
}

/// A driver as a mathematical value.
pub struct DriverView {
    /// Bus address of the controller.
    pub address: u16,
    pub state: DriverState,
    pub activity: Activity,
    /// The display buffer, leading byte included.
    pub frame: Seq<u8>,
    /// The requests not yet delivered, the next one first.
    pub pending: Seq<Transfer>,
}

impl DriverView {
    /// The driver is in `state` with no request outstanding.
    pub open spec fn idle_in(self, state: DriverState) -> bool {
        self.state == state && self.activity == Activity::Idle
    }

    /// What holds of every driver, in whatever state.
    pub open spec fn inv(self) -> bool {
        &&& self.frame.len() == DISPLAY_BUFFER_SZ
        &&& self.activity == Activity::Idle <==> self.pending.len() == 0
        &&& match self.state {
            DriverState::Uninitialized => self.frame == zeroed(DISPLAY_BUFFER_SZ as nat),
            DriverState::Ready => self.frame[0] == DATA_CONTROL,
            DriverState::Closed => self.frame == blank_frame() && self.activity == Activity::Idle,
        }
        &&& match self.activity {
            Activity::Idle => true,
            Activity::Initializing => {
                &&& self.state == DriverState::Uninitialized
                &&& is_rest_of(self.pending, init_script(self.address))
            },
            Activity::Transmitting => {
                &&& self.state == DriverState::Ready
                &&& self.pending == seq![raw_transfer(self.frame)]
            },
            Activity::Closing => {
                &&& self.state == DriverState::Ready
                &&& self.frame == blank_frame()
                &&& is_rest_of(self.pending, close_script(self.frame))
            },
        }
    }

    /// The driver after the bus has reported `event` for the request at the
    /// head of the queue. A delivered request leaves the queue, and the last
    /// one completes the operation. A failed one drops the queue and leaves
    /// the driver idle in the state in which the operation found it. With
    /// nothing outstanding an event changes nothing.
    pub open spec fn after_event(self, event: BusEvent) -> DriverView {
        if self.activity == Activity::Idle {
            self
        } else if event == BusEvent::Failed {
            DriverView { activity: Activity::Idle, pending: Seq::empty(), ..self }
        } else if self.pending.len() > 1 {
            DriverView { pending: self.pending.skip(1), ..self }
        } else {
            self.settled()
        }
    }

    /// What the driver answers to `event`: a sequence error with nothing
    /// outstanding, else a transport error to a failure.
    pub open spec fn answer_to(self, event: BusEvent) -> Result<(), DriverError> {
        if self.activity == Activity::Idle {
            refused(DriverError::Sequence)
        } else if event == BusEvent::Failed {
            refused(DriverError::Transport)
        } else {
            Ok(())
        }
    }

    /// The driver after the next `count` requests have been delivered.
    pub open spec fn after_deliveries(self, count: nat) -> DriverView
        decreases count,
    {
        if count == 0 {
            self
        } else {
            self.after_event(BusEvent::Delivered).after_deliveries((count - 1) as nat)
        }
    }

    /// The driver once the last outstanding request has been delivered: an
    /// initializing driver is ready, with the data control byte at the head
    /// of its display buffer, and a closing driver is closed.
    pub open spec fn settled(self) -> DriverView {
        match self.activity {
            Activity::Idle => self,
            Activity::Initializing => DriverView {
                state: DriverState::Ready,
                activity: Activity::Idle,
                frame: self.frame.update(0, DATA_CONTROL),
                pending: Seq::empty(),
                ..self
            },
            Activity::Transmitting => DriverView {
                activity: Activity::Idle,
                pending: Seq::empty(),
                ..self
            },
            Activity::Closing => DriverView {
                state: DriverState::Closed,
                activity: Activity::Idle,
                pending: Seq::empty(),
                ..self
            },
        }
    }
}

/// Driver for one SSD1306 panel.
#[allow(non_camel_case_types)]
pub struct ssd1306 {
    address: u16,
    state: DriverState,
    activity: Activity,
    display_buffer: DisplayBuffer,
    queue: Vec<BusRequest>,
    sent: usize,
}

/// The transfers that the requests of `queue` ask for, from index `from` on.
spec fn transfers_from(queue: Seq<BusRequest>, from: int) -> Seq<Transfer> {
    Seq::new(
        if 0 <= from <= queue.len() {
            (queue.len() - from) as nat
        } else {
            0nat
        },
        |i: int| queue[from + i]@,
    )
}

impl View for ssd1306 {
    type V = DriverView;

    closed spec fn view(&self) -> DriverView {
        DriverView {
            address: self.address,
            state: self.state,
            activity: self.activity,
            frame: self.display_buffer@,
            pending: transfers_from(self.queue@, self.sent as int),
        }
    }
}

impl ssd1306 {
    /// The driver's invariant holds.
    pub open spec fn wf(&self) -> bool {
        self@.inv()
    }

    /// A driver for the controller at `address`: uninitialized, its display
    /// buffer zeroed, nothing queued.
    pub fn get_struct(address: u16) -> (driver: ssd1306)
        ensures
            driver.wf(),
            driver@ == (DriverView {
                address,
                state: DriverState::Uninitialized,
                activity: Activity::Idle,
                frame: zeroed(DISPLAY_BUFFER_SZ as nat),
                pending: Seq::empty(),
            }),
    {
        let driver = ssd1306 {
            address,
            state: DriverState::Uninitialized,
            activity: Activity::Idle,
            display_buffer: DisplayBuffer::new(),
            queue: Vec::new(),
            sent: 0,
        };
        assert(driver@.pending =~= Seq::empty());
        driver
    }

    /// Bus address of the controller.
    pub fn address(&self) -> (address: u16)
        ensures
            address == self@.address,
    {
        self.address
    }

    /// Where the driver stands in its life.
    pub fn state(&self) -> (state: DriverState)
        ensures
            state == self@.state,
    {
        self.state
    }

    /// The operation whose requests are outstanding.
    pub fn activity(&self) -> (activity: Activity)
        ensures
            activity == self@.activity,
    {
        self.activity
    }

    /// The display buffer as it stands in memory.
    pub fn display_buffer(&self) -> (buffer: &DisplayBuffer)
        ensures
            buffer@ == self@.frame,
    {
        &self.display_buffer
    }

    /// Starts bringing the controller up: queues the power-up sequence for
    /// the driver's address. Only a driver that is uninitialized and idle can
    /// start; any other stays as it is. The driver turns ready when the last
    /// request of the sequence has been delivered.
    pub fn init(&mut self) -> (result: Result<(), DriverError>)
        requires
            old(self).wf(),
        ensures
            final(self).wf(),
            old(self)@.idle_in(DriverState::Uninitialized) ==> result is Ok,
            old(self)@.idle_in(DriverState::Uninitialized) ==> final(self)@ == (DriverView {
                activity: Activity::Initializing,
                frame: zeroed(DISPLAY_BUFFER_SZ as nat),
                pending: init_script(old(self)@.address),
                ..old(self)@
            }),
            !old(self)@.idle_in(DriverState::Uninitialized) ==> result == refused(
                DriverError::Sequence,
            ),
            !old(self)@.idle_in(DriverState::Uninitialized) ==> final(self)@ == old(self)@,
    {
        if self.state != DriverState::Uninitialized || self.activity != Activity::Idle {
            return Err(DriverError::Sequence);
        }
        let mut queue: Vec<BusRequest> = Vec::new();
        queue.push(BusRequest::SetSlaveAddress { address: self.address });
        assert(transfers_from(queue@, 0) =~= seq![
            Transfer::SetSlaveAddress { address: self.address },
        ]);
        Self::config(&mut queue);
        self.display_buffer.fill(0x00);
        assert(self.display_buffer@ =~= zeroed(DISPLAY_BUFFER_SZ as nat));
        let ghost configured = queue@;
        queue.push(crate::i2c_support::write(self.display_buffer.as_bytes()));
        assert(transfers_from(queue@, 0) =~= transfers_from(configured, 0) + seq![
            raw_transfer(zeroed(DISPLAY_BUFFER_SZ as nat)),
        ]);
        self.queue = queue;
        self.sent = 0;
        self.activity = Activity::Initializing;
        assert(init_script(self.address).skip(0) =~= init_script(self.address));
        Ok(())
    }

    /// Appends the power-up configuration to `queue`, one command write for
    /// each of its bytes.
    fn config(queue: &mut Vec<BusRequest>)
        ensures
            transfers_from(final(queue)@, 0) == transfers_from(old(queue)@, 0) + command_script(
                config_bytes(),
            ),
    {
        let bytes = config_sequence();
        let mut i: usize = 0;
        while i < bytes.len()
            invariant
                i <= bytes.len(),
                bytes@ == config_bytes(),
                transfers_from(queue@, 0) == transfers_from(old(queue)@, 0) + command_script(
                    config_bytes().take(i as int),
                ),
            decreases bytes.len() - i,
        {
            let ghost before = queue@;
            queue.push(write_cmd(bytes[i]));
            assert(transfers_from(queue@, 0) =~= transfers_from(before, 0).push(
                command_transfer(bytes@[i as int]),
            ));
            assert(command_script(config_bytes().take(i + 1)) =~= command_script(
                config_bytes().take(i as int),
            ).push(command_transfer(bytes@[i as int])));
            i += 1;
        }
        assert(config_bytes().take(i as int) =~= config_bytes());
    }

    /// Overwrites every cell of the display buffer with `data` and queues the
    /// buffer for sending. Only a driver that is ready and idle accepts the
    /// fill; any other stays as it is, with nothing queued.
    pub fn fill(&mut self, data: u8) -> (result: Result<(), DriverError>)
        requires
            old(self).wf(),
        ensures
            final(self).wf(),
            old(self)@.idle_in(DriverState::Ready) ==> result is Ok,
            old(self)@.idle_in(DriverState::Ready) ==> final(self)@ == (DriverView {
                activity: Activity::Transmitting,
                frame: filled(old(self)@.frame, data),
                pending: seq![raw_transfer(filled(old(self)@.frame, data))],
                ..old(self)@
            }),
            !old(self)@.idle_in(DriverState::Ready) ==> result == refused(DriverError::Sequence),
            !old(self)@.idle_in(DriverState::Ready) ==> final(self)@ == old(self)@,
    {
        if self.state != DriverState::Ready || self.activity != Activity::Idle {
            return Err(DriverError::Sequence);
        }
        self.display_buffer.fill(data);
        self.transmit();
        Ok(())
    }

    /// Lights pixel `(x, y)` and queues the display buffer for sending. No
    /// pixel is ever cleared by this. Only a driver that is ready and idle
    /// accepts the pixel, and only a pixel of the panel is accepted; otherwise
    /// the driver stays as it is, with nothing queued.
    pub fn draw_pixel(&mut self, x: i32, y: i32) -> (result: Result<(), DriverError>)
        requires
            old(self).wf(),
        ensures
            final(self).wf(),
            result == (if !old(self)@.idle_in(DriverState::Ready) {
                refused(DriverError::Sequence)
            } else if !in_bounds(x as int, y as int) {
                refused(DriverError::Range)
            } else {
                Ok(())
            }),
            result is Ok ==> final(self)@ == (DriverView {
                activity: Activity::Transmitting,
                frame: with_pixel(old(self)@.frame, x as int, y as int),
                pending: seq![raw_transfer(with_pixel(old(self)@.frame, x as int, y as int))],
                ..old(self)@
            }),
            result is Err ==> final(self)@ == old(self)@,
    {
        if self.state != DriverState::Ready || self.activity != Activity::Idle {
            return Err(DriverError::Sequence);
        }
        if !self.display_buffer.set_pixel(x, y) {
            return Err(DriverError::Range);
        }
        self.transmit();
        Ok(())
    }

    /// Queues the display buffer, as it stands, for one unframed write.
    fn transmit(&mut self)
        requires
            old(self).display_buffer.wf(),
        ensures
            final(self)@ == (DriverView {
                activity: Activity::Transmitting,
                pending: seq![raw_transfer(old(self)@.frame)],
                ..old(self)@
            }),
    {
        let mut queue: Vec<BusRequest> = Vec::new();
        queue.push(crate::i2c_support::write(self.display_buffer.as_bytes()));
        self.queue = queue;
        self.sent = 0;
        self.activity = Activity::Transmitting;
        assert(self@.pending =~= seq![raw_transfer(old(self)@.frame)]);
    }

    /// Starts shutting the panel down: blanks the display buffer and queues
    /// it twice, unframed and as framed data, with the display-off command
    /// last. Only a driver that is ready and idle can close; any other stays
    /// as it is. The driver is closed when the last request has been
    /// delivered.
    pub fn close(&mut self) -> (result: Result<(), DriverError>)
        requires
            old(self).wf(),
        ensures
            final(self).wf(),
            old(self)@.idle_in(DriverState::Ready) ==> result is Ok,
            old(self)@.idle_in(DriverState::Ready) ==> final(self)@ == (DriverView {
                activity: Activity::Closing,
                frame: blank_frame(),
                pending: close_script(blank_frame()),
                ..old(self)@
            }),
            !old(self)@.idle_in(DriverState::Ready) ==> result == refused(DriverError::Sequence),
            !old(self)@.idle_in(DriverState::Ready) ==> final(self)@ == old(self)@,
    {
        if self.state != DriverState::Ready || self.activity != Activity::Idle {
            return Err(DriverError::Sequence);
        }
        self.display_buffer.fill(0x00);
        assert(self.display_buffer@ =~= blank_frame());
        let mut queue: Vec<BusRequest> = Vec::new();
        queue.push(crate::i2c_support::write(self.display_buffer.as_bytes()));
        queue.push(write_data(self.display_buffer.cells()));
        queue.push(write_cmd(Commands::DISPLAY_OFF.code()));
        assert(transfers_from(queue@, 0) =~= close_script(blank_frame()));
        self.queue = queue;
        self.sent = 0;
        self.activity = Activity::Closing;
        assert(close_script(blank_frame()).skip(0) =~= close_script(blank_frame()));
        Ok(())
    }

    /// The request that the bus has to carry out next, if any is outstanding.
    pub fn next_request(&self) -> (request: Option<&BusRequest>)
        requires
            self.wf(),
        ensures
            request is Some <==> self@.pending.len() > 0,
            request matches Some(next) ==> next@ == self@.pending[0],
    {
        if self.sent < self.queue.len() {
            Some(&self.queue[self.sent])
        } else {
            None
        }
    }

    /// Takes the outcome of the request at the head of the queue, moves the
    /// driver on as [`DriverView::after_event`] says and answers as
    /// [`DriverView::answer_to`] says: a failed request ends the operation with
    /// a transport error, and an event with nothing outstanding is a sequence
    /// error.
    pub fn on_bus_event(&mut self, event: BusEvent) -> (result: Result<(), DriverError>)
        requires
            old(self).wf(),
        ensures
            final(self).wf(),
            final(self)@ == old(self)@.after_event(event),
            result == old(self)@.answer_to(event),
    {
        if self.activity == Activity::Idle {
            return Err(DriverError::Sequence);
        }
        if event == BusEvent::Failed {
            self.queue = Vec::new();
            self.sent = 0;
            self.activity = Activity::Idle;
            assert(self@.pending =~= Seq::empty());
            return Err(DriverError::Transport);
        }
        assert(self.sent < self.queue.len()) by {
            assert(transfers_from(self.queue@, self.sent as int).len() > 0);
        }
        if self.sent + 1 < self.queue.len() {
            self.sent = self.sent + 1;
            assert(self@.pending =~= old(self)@.pending.skip(1));
            proof {
                lemma_rest_of_skip(old(self)@.pending, init_script(self.address));
                lemma_rest_of_skip(old(self)@.pending, close_script(self@.frame));
            }
            return Ok(());
        }
        self.queue = Vec::new();
        self.sent = 0;
        assert(self@.pending =~= Seq::empty());
        match self.activity {
            Activity::Initializing => {
                self.display_buffer.set_marker(DATA_CONTROL);
                self.state = DriverState::Ready;
            },
            Activity::Closing => {
                self.state = DriverState::Closed;
            },
            _ => {},
        }
        self.activity = Activity::Idle;
        Ok(())
    }
}

/// The power-up sequence selects the device first, then sends the
/// configuration byte by byte, each as a command write and none as a data
/// write, and ends with the one unframed write of the blank buffer.
pub proof fn lemma_init_script_order(address: u16, i: int)
    requires
        0 <= i < config_bytes().len(),
    ensures
        init_script(address).len() == config_bytes().len() + 2,
        init_script(address).first() == (Transfer::SetSlaveAddress { address }),
        init_script(address)[i + 1] == command_transfer(config_bytes()[i]),
        init_script(address)[i + 1].is_command(),
        !init_script(address)[i + 1].is_data(),
        init_script(address).last() == raw_transfer(zeroed(DISPLAY_BUFFER_SZ as nat)),
{
}

/// Requests go out in the order in which they were queued. While fewer
/// deliveries have been reported than requests were outstanding, nothing but
/// the queue has changed, and its head is the next request in order. The
/// operation completes with the last delivery and not before.
pub proof fn lemma_deliveries_in_order(driver: DriverView, count: nat)
    requires
        driver.activity != Activity::Idle,
        0 < driver.pending.len(),
        count <= driver.pending.len(),
    ensures
        count < driver.pending.len() ==> driver.after_deliveries(count) == (DriverView {
            pending: driver.pending.skip(count as int),
            ..driver
        }) && driver.after_deliveries(count).pending.first() == driver.pending[count as int],
        count == driver.pending.len() ==> driver.after_deliveries(count) == driver.settled(),
    decreases count,
{
    if count == 0 {
        assert(driver.pending.skip(0) =~= driver.pending);
    } else {
        let next = driver.after_event(BusEvent::Delivered);
        if driver.pending.len() > 1 {
            lemma_deliveries_in_order(next, (count - 1) as nat);
            assert(driver.pending.skip(1).skip(count - 1) =~= driver.pending.skip(count as int));
        } else {
            assert(next.after_deliveries(0) == next);
        }
    }
}

/// A power-up on which every request is delivered ends in a ready driver
/// whose display buffer is blank behind the data control byte, and until the
/// last delivery the driver stays uninitialized.
pub proof fn lemma_init_completes(driver: DriverView, count: nat)
    requires
        driver.inv(),
        driver.activity == Activity::Initializing,
        driver.pending == init_script(driver.address),
        count < init_script(driver.address).len(),
    ensures
        driver.after_deliveries(count).state == DriverState::Uninitialized,
        driver.after_deliveries(count).pending.first() == init_script(driver.address)[count as int],
        driver.after_deliveries(init_script(driver.address).len()) == (DriverView {
            state: DriverState::Ready,
            activity: Activity::Idle,
            frame: blank_frame(),
            pending: Seq::empty(),
            ..driver
        }),
{
    lemma_deliveries_in_order(driver, count);
    lemma_deliveries_in_order(driver, init_script(driver.address).len());
}

/// A shutdown on which every request is delivered ends in a closed driver
/// with a blank display buffer; the display-off command is the last request
/// to go out, and the driver is not closed before it has been delivered.
pub proof fn lemma_close_completes(driver: DriverView, count: nat)
    requires
        driver.inv(),
        driver.activity == Activity::Closing,
        driver.pending == close_script(blank_frame()),
        count < close_script(blank_frame()).len(),
    ensures
        close_script(blank_frame()).len() == 3,
        driver.after_deliveries(count).state == DriverState::Ready,
        driver.after_deliveries(count).frame == blank_frame(),
        driver.after_deliveries(2).pending == seq![
            command_transfer(Commands::DISPLAY_OFF.spec_code()),
        ],
        driver.after_deliveries(3) == (DriverView {
            state: DriverState::Closed,
            activity: Activity::Idle,
            frame: blank_frame(),
            pending: Seq::empty(),
            ..driver
        }),
{
    lemma_deliveries_in_order(driver, count);
    lemma_deliveries_in_order(driver, 2);
    lemma_deliveries_in_order(driver, 3);
    assert(close_script(blank_frame()).skip(2) =~= seq![
        command_transfer(Commands::DISPLAY_OFF.spec_code()),
    ]);
}

/// While a driver is closing, its display buffer is blank, and the
/// display-off command is the last request that is still to go out.
pub proof fn lemma_closing_ends_with_display_off(driver: DriverView)
    requires
        driver.inv(),
        driver.activity == Activity::Closing,
    ensures
        driver.pending.len() > 0,
        driver.pending.last() == command_transfer(Commands::DISPLAY_OFF.spec_code()),
        driver.pending.last().wire() == seq![0x00u8, 0xAEu8],
        forall|i: int| CELL_OFFSET <= i < driver.frame.len() ==> driver.frame[i] == 0,
{
    assert(seq![0x00u8] + seq![0xAEu8] =~= seq![0x00u8, 0xAEu8]);
}

} // verus!
