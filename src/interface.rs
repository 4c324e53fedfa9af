//! The transport shared by every panel: command and data framing, chunked
//! bulk writes, busy polling and the reset pulse.
use vstd::prelude::*;

verus! {

/// Largest number of bytes handed to the serial bus in one write.
pub const MAX_TRANSFER: usize = 4096;

/// Settle time around the reset pulse, in milliseconds.
pub const RESET_SETTLE_MS: u8 = 200;

/// What the host does while the panel reports busy, between two samples of
/// the busy line.
#[derive(Clone, Copy, Debug, PartialEq, Eq, Structural)]
pub enum Poll {
    /// Nothing: sample the line again at once.
    Passive,
    /// Send `opcode` as a command, then pause `interval_ms` milliseconds.
    Query { opcode: u8, interval_ms: u8 },
}

/// A blocking wait until the panel reports idle.
#[derive(Clone, Copy, Debug, PartialEq, Eq, Structural)]
pub struct Wait {
    /// True where a low busy line means "busy".
    pub busy_is_low: bool,
    pub poll: Poll,
}

/// One action on the control lines, the bus or the timer, in the order the
/// host must perform it. A level of `true` is high.
#[derive(Debug, PartialEq, Eq)]
pub enum Signal {
    /// Drive data/command select: high for data, low for a command.
    Dc(bool),
    /// Drive chip select: low selects the panel.
    Cs(bool),
    /// Drive the reset line.
    Rst(bool),
    /// Write these bytes on the serial bus, in one transfer.
    Write(Vec<u8>),
    /// Pause this many milliseconds.
    DelayMs(u8),
    /// Sample the busy line until it reports idle; see [`Wait::poll`].
    WaitIdle(Wait),
}

/// The mathematical value of a [`Signal`].
pub enum BusEvent {
    Dc(bool),
    Cs(bool),
    Rst(bool),
    Write(Seq<u8>),
    DelayMs(u8),
    WaitIdle(Wait),
}

impl View for Signal {
    type V = BusEvent;

    open spec fn view(&self) -> BusEvent {
        match self {
            Signal::Dc(l) => BusEvent::Dc(*l),
            Signal::Cs(l) => BusEvent::Cs(*l),
            Signal::Rst(l) => BusEvent::Rst(*l),
            Signal::Write(b) => BusEvent::Write(b@),
            Signal::DelayMs(ms) => BusEvent::DelayMs(*ms),
            Signal::WaitIdle(w) => BusEvent::WaitIdle(*w),
        }
    }
}

/// The events a queue of signals stands for.
pub open spec fn events(s: Seq<Signal>) -> Seq<BusEvent> {
    s.map_values(|x: Signal| x@)
}

/// Whether the panel is busy, given the sampled level of the busy line and
/// the model's polarity.
pub open spec fn busy_level(line_is_low: bool, busy_is_low: bool) -> bool {
    if busy_is_low {
        line_is_low
    } else {
        !line_is_low
    }
}

/// A command: select command mode, then one opcode byte framed by chip select.
pub open spec fn command_frame(opcode: u8) -> Seq<BusEvent> {
    seq![BusEvent::Dc(false), BusEvent::Cs(false), BusEvent::Write(seq![opcode]), BusEvent::Cs(true)]
}

/// The pieces, in order, into which a payload is cut for the bus: each
/// `MAX_TRANSFER` bytes long but the last.
pub open spec fn chunks(d: Seq<u8>) -> Seq<Seq<u8>>
    decreases d.len(),
{
    if d.len() == 0 {
        seq![]
    } else if d.len() <= MAX_TRANSFER {
        seq![d]
    } else {
        seq![d.take(MAX_TRANSFER as int)] + chunks(d.skip(MAX_TRANSFER as int))
    }
}

/// One bus write for each piece.
pub open spec fn writes(c: Seq<Seq<u8>>) -> Seq<BusEvent> {
    c.map_values(|b: Seq<u8>| BusEvent::Write(b))
}

/// A data transfer: select data mode, then the payload in chunks, chip
/// select held low across all of them.
pub open spec fn data_frame(d: Seq<u8>) -> Seq<BusEvent> {
    seq![BusEvent::Dc(true), BusEvent::Cs(false)] + writes(chunks(d)) + seq![BusEvent::Cs(true)]
}

/// A command followed by its data.
pub open spec fn command_data_frame(opcode: u8, d: Seq<u8>) -> Seq<BusEvent> {
    command_frame(opcode) + data_frame(d)
}

/// `n` copies of `b`.
pub open spec fn repeat(b: u8, n: nat) -> Seq<u8> {
    Seq::new(n, |_i: int| b)
}

/// The reset pulse: high, settle, low for `pulse_ms`, high, settle.
pub open spec fn reset_sequence(pulse_ms: u8) -> Seq<BusEvent> {
    seq![
        BusEvent::Rst(true),
        BusEvent::DelayMs(RESET_SETTLE_MS),
        BusEvent::Rst(false),
        BusEvent::DelayMs(pulse_ms),
        BusEvent::Rst(true),
        BusEvent::DelayMs(RESET_SETTLE_MS),
    ]
}

/// What the host performs after a sample that found the panel busy.
pub open spec fn poll_sequence(p: Poll) -> Seq<BusEvent> {
    match p {
        Poll::Passive => seq![],
        Poll::Query { opcode, interval_ms } => command_frame(opcode) + seq![BusEvent::DelayMs(interval_ms)],
    }
}

/// The bytes that the writes among `e` put on the bus, in order.
pub open spec fn payload(e: Seq<BusEvent>) -> Seq<u8>
    decreases e.len(),
{
    if e.len() == 0 {
        seq![]
    } else {
        let first = match e[0] {
            BusEvent::Write(b) => b,
            _ => seq![],
        };
        first + payload(e.skip(1))
    }
}

/// The bytes a sequence of pieces holds, in order.
pub open spec fn joined(c: Seq<Seq<u8>>) -> Seq<u8>
    decreases c.len(),
{
    if c.len() == 0 {
        seq![]
    } else {
        c[0] + joined(c.skip(1))
    }
}

/// Concatenation regroups to the right.
pub broadcast proof fn lemma_seq_add_assoc<A>(a: Seq<A>, b: Seq<A>, c: Seq<A>)
    ensures
        #[trigger] ((a + b) + c) == a + (b + c),
{
    assert((a + b) + c =~= a + (b + c));
}

proof fn lemma_chunks_step(d: Seq<u8>, i: int, n: int)
    requires
        0 <= i < n == d.len(),
    ensures
        n - i > MAX_TRANSFER ==> chunks(d.subrange(i, n)) == seq![d.subrange(i, i + MAX_TRANSFER)]
            + chunks(d.subrange(i + MAX_TRANSFER, n)),
        n - i <= MAX_TRANSFER ==> chunks(d.subrange(i, n)) == seq![d.subrange(i, n)] + chunks(
            d.subrange(n, n),
        ),
{
    let s = d.subrange(i, n);
    if n - i > MAX_TRANSFER {
        assert(s.take(MAX_TRANSFER as int) =~= d.subrange(i, i + MAX_TRANSFER));
        assert(s.skip(MAX_TRANSFER as int) =~= d.subrange(i + MAX_TRANSFER, n));
    } else {
        assert(d.subrange(n, n).len() == 0);
        assert(chunks(d.subrange(n, n)) =~= seq![]);
        assert(seq![s] + seq![] =~= seq![s]);
    }
}

proof fn lemma_writes_append(a: Seq<Seq<u8>>, b: Seq<Seq<u8>>)
    ensures
        writes(a + b) == writes(a) + writes(b),
{
    assert(writes(a + b) =~= writes(a) + writes(b));
}

proof fn lemma_payload_append(a: Seq<BusEvent>, b: Seq<BusEvent>)
    ensures
        payload(a + b) == payload(a) + payload(b),
    decreases a.len(),
{
    if a.len() == 0 {
        assert(a + b =~= b);
        assert(payload(a) + payload(b) =~= payload(b));
    } else {
        assert((a + b).skip(1) =~= a.skip(1) + b);
        lemma_payload_append(a.skip(1), b);
        let first = match a[0] {
            BusEvent::Write(x) => x,
            _ => seq![],
        };
        assert((a + b)[0] == a[0]);
        vstd::seq_lib::lemma_concat_associative(first, payload(a.skip(1)), payload(b));
    }
}

proof fn lemma_payload_writes(c: Seq<Seq<u8>>)
    ensures
        payload(writes(c)) == joined(c),
    decreases c.len(),
{
    if c.len() > 0 {
        assert(writes(c).skip(1) =~= writes(c.skip(1)));
        lemma_payload_writes(c.skip(1));
    } else {
        assert(writes(c) =~= seq![]);
    }
}

proof fn lemma_joined_chunks(d: Seq<u8>)
    ensures
        joined(chunks(d)) == d,
        forall|k: int| 0 <= k < chunks(d).len() ==> 0 < #[trigger] chunks(d)[k].len() <= MAX_TRANSFER,
    decreases d.len(),
{
    if d.len() == 0 {
        assert(d =~= Seq::<u8>::empty());
    } else if d.len() <= MAX_TRANSFER {
        assert(seq![d].skip(1) =~= Seq::<Seq<u8>>::empty());
        assert(joined(seq![d].skip(1)) == Seq::<u8>::empty());
        assert(d + Seq::<u8>::empty() =~= d);
    } else {
        let rest = d.skip(MAX_TRANSFER as int);
        lemma_joined_chunks(rest);
        let c = chunks(d);
        assert(c.skip(1) =~= chunks(rest));
        assert(d.take(MAX_TRANSFER as int) + rest =~= d);
        assert forall|k: int| 0 <= k < c.len() implies 0 < #[trigger] c[k].len() <= MAX_TRANSFER by {
            if k > 0 {
                assert(c[k] == chunks(rest)[k - 1]);
            }
        }
    }
}

/// A data transfer of any length puts exactly its payload on the bus, in
/// order, as one unchunked write would; no single write exceeds
/// `MAX_TRANSFER` bytes; and chip select is held low from the first chunk to
/// the last.
pub proof fn lemma_data_frame_payload(d: Seq<u8>)
    ensures
        payload(data_frame(d)) == d,
        forall|k: int|
            0 <= k < chunks(d).len() ==> 0 < #[trigger] chunks(d)[k].len() <= MAX_TRANSFER,
        data_frame(d).len() == chunks(d).len() + 3,
        data_frame(d)[0] == BusEvent::Dc(true),
        data_frame(d)[1] == BusEvent::Cs(false),
        data_frame(d).last() == BusEvent::Cs(true),
        forall|k: int|
            2 <= k < data_frame(d).len() - 1 ==> #[trigger] data_frame(d)[k] == BusEvent::Write(
                chunks(d)[k - 2],
            ),
{
    let head = seq![BusEvent::Dc(true), BusEvent::Cs(false)];
    let tail = seq![BusEvent::Cs(true)];
    let w = writes(chunks(d));
    lemma_payload_append(head + w, tail);
    lemma_payload_append(head, w);
    lemma_payload_writes(chunks(d));
    lemma_joined_chunks(d);
    let none = Seq::<u8>::empty();
    let h2 = head.skip(1);
    assert(h2[0] == BusEvent::Cs(false));
    assert(h2.skip(1) =~= Seq::<BusEvent>::empty());
    assert(payload(h2.skip(1)) == none);
    assert(payload(h2) =~= none);
    assert(head[0] == BusEvent::Dc(true));
    assert(payload(head) =~= none);
    assert(tail.skip(1) =~= Seq::<BusEvent>::empty());
    assert(payload(tail.skip(1)) == none);
    assert(payload(tail) =~= none);
    assert(none + d + none =~= d);
}

impl Wait {
    /// Decides what follows one sample of the busy line: `None` once the
    /// panel is idle, else the actions to perform before the next sample.
    pub fn poll(&self, line_is_low: bool) -> (r: Option<Vec<Signal>>)
        ensures
            r.is_none() == !busy_level(line_is_low, self.busy_is_low),
            r matches Some(v) ==> events(v@) == poll_sequence(self.poll),
    {
        if !DisplayInterface::is_busy(line_is_low, self.busy_is_low) {
            return None;
        }
        let mut bus = DisplayInterface::new();
        match self.poll {
            Poll::Passive => {},
            Poll::Query { opcode, interval_ms } => {
                bus.cmd(opcode);
                bus.delay_ms(interval_ms);
            },
        }
        Some(bus.take_signals())
    }
}

/// The transport: frames commands and data and queues the resulting
/// signals until the host takes them.
pub struct DisplayInterface {
    queue: Vec<Signal>,
}

impl View for DisplayInterface {
    type V = Seq<BusEvent>;

    closed spec fn view(&self) -> Seq<BusEvent> {
        events(self.queue@)
    }
}

impl DisplayInterface {
    /// A transport with nothing queued.
    pub fn new() -> (r: Self)
        ensures
            r@ == Seq::<BusEvent>::empty(),
    {
        let r = DisplayInterface { queue: Vec::new() };
        assert(r@ =~= Seq::<BusEvent>::empty());
        r
    }

    fn push(&mut self, s: Signal)
        ensures
            final(self)@ == old(self)@.push(s@),
    {
        self.queue.push(s);
        assert(final(self)@ =~= old(self)@.push(s@));
    }

    /// Hands over everything queued, oldest first, and empties the queue.
    pub fn take_signals(&mut self) -> (r: Vec<Signal>)
        ensures
            events(r@) == old(self)@,
            final(self)@ == Seq::<BusEvent>::empty(),
    {
        let mut out: Vec<Signal> = Vec::new();
        std::mem::swap(&mut out, &mut self.queue);
        assert(final(self)@ =~= Seq::<BusEvent>::empty());
        out
    }

    /// Sends one command opcode.
    pub fn cmd(&mut self, opcode: u8)
        ensures
            final(self)@ == old(self)@ + command_frame(opcode),
    {
        self.push(Signal::Dc(false));
        self.push(Signal::Cs(false));
        let mut b: Vec<u8> = Vec::new();
        b.push(opcode);
        assert(b@ =~= seq![opcode]);
        self.push(Signal::Write(b));
        self.push(Signal::Cs(true));
        assert(final(self)@ =~= old(self)@ + command_frame(opcode));
    }

    /// Sends a data payload, cut into writes of at most `MAX_TRANSFER` bytes.
    pub fn data(&mut self, data: &[u8])
        ensures
            final(self)@ == old(self)@ + data_frame(data@),
    {
        self.push(Signal::Dc(true));
        self.push(Signal::Cs(false));
        let ghost start = self@;
        let n = data.len();
        let mut i: usize = 0;
        proof {
            assert(data@.subrange(0, n as int) =~= data@);
            assert(writes(seq![]) =~= seq![]);
        }
        while i < n
            invariant
                i <= n == data@.len(),
                self@ + writes(chunks(data@.subrange(i as int, n as int))) == start + writes(
                    chunks(data@),
                ),
            decreases n - i,
        {
            let end: usize = if n - i > MAX_TRANSFER { i + MAX_TRANSFER } else { n };
            let mut chunk: Vec<u8> = Vec::new();
            let mut j: usize = i;
            while j < end
                invariant
                    i <= j <= end <= n == data@.len(),
                    chunk@ == data@.subrange(i as int, j as int),
                decreases end - j,
            {
                chunk.push(data[j]);
                j = j + 1;
                assert(chunk@ =~= data@.subrange(i as int, j as int));
            }
            let ghost before = self@;
            let ghost i0 = i as int;
            proof {
                lemma_chunks_step(data@, i as int, n as int);
                lemma_writes_append(seq![chunk@], chunks(data@.subrange(end as int, n as int)));
                assert(writes(seq![chunk@]) =~= seq![BusEvent::Write(chunk@)]);
            }
            self.push(Signal::Write(chunk));
            i = end;
            proof {
                vstd::seq_lib::lemma_concat_associative(
                    before,
                    seq![BusEvent::Write(data@.subrange(i0, end as int))],
                    writes(chunks(data@.subrange(end as int, n as int))),
                );
            }
        }
        proof {
            assert(data@.subrange(n as int, n as int) =~= seq![]);
            assert(writes(chunks(seq![])) =~= seq![]);
            assert(self@ + seq![] =~= self@);
        }
        self.push(Signal::Cs(true));
        assert(final(self)@ =~= old(self)@ + data_frame(data@));
    }

    /// Sends a command followed by its data.
    pub fn cmd_with_data(&mut self, opcode: u8, data: &[u8])
        ensures
            final(self)@ == old(self)@ + command_data_frame(opcode, data@),
    {
        self.cmd(opcode);
        self.data(data);
        proof {
            vstd::seq_lib::lemma_concat_associative(old(self)@, command_frame(opcode), data_frame(data@));
        }
    }

    /// Sends `repetitions` copies of one byte as data, without building the
    /// whole payload: framed as `data` would frame it.
    pub fn data_x_times(&mut self, val: u8, repetitions: u32)
        ensures
            final(self)@ == old(self)@ + data_frame(repeat(val, repetitions as nat)),
    {
        self.push(Signal::Dc(true));
        self.push(Signal::Cs(false));
        let ghost start = self@;
        let ghost all = repeat(val, repetitions as nat);
        let n = repetitions as usize;
        let mut i: usize = 0;
        proof {
            assert(all.subrange(0, n as int) =~= all);
        }
        while i < n
            invariant
                i <= n == all.len(),
                all == repeat(val, repetitions as nat),
                self@ + writes(chunks(all.subrange(i as int, n as int))) == start + writes(chunks(all)),
            decreases n - i,
        {
            let end: usize = if n - i > MAX_TRANSFER { i + MAX_TRANSFER } else { n };
            let mut chunk: Vec<u8> = Vec::new();
            let mut j: usize = i;
            while j < end
                invariant
                    i <= j <= end <= n == all.len(),
                    all == repeat(val, repetitions as nat),
                    chunk@ == all.subrange(i as int, j as int),
                decreases end - j,
            {
                chunk.push(val);
                j = j + 1;
                assert(chunk@ =~= all.subrange(i as int, j as int));
            }
            let ghost before = self@;
            let ghost i0 = i as int;
            proof {
                lemma_chunks_step(all, i as int, n as int);
                lemma_writes_append(seq![chunk@], chunks(all.subrange(end as int, n as int)));
                assert(writes(seq![chunk@]) =~= seq![BusEvent::Write(chunk@)]);
            }
            self.push(Signal::Write(chunk));
            i = end;
            proof {
                vstd::seq_lib::lemma_concat_associative(
                    before,
                    seq![BusEvent::Write(all.subrange(i0, end as int))],
                    writes(chunks(all.subrange(end as int, n as int))),
                );
            }
        }
        proof {
            assert(all.subrange(n as int, n as int) =~= seq![]);
            assert(writes(chunks(seq![])) =~= seq![]);
            assert(self@ + seq![] =~= self@);
        }
        self.push(Signal::Cs(true));
        assert(final(self)@ =~= old(self)@ + data_frame(all));
    }

    /// Pauses the host for `ms` milliseconds.
    pub fn delay_ms(&mut self, ms: u8)
        ensures
            final(self)@ == old(self)@ + seq![BusEvent::DelayMs(ms)],
    {
        self.push(Signal::DelayMs(ms));
        assert(final(self)@ =~= old(self)@ + seq![BusEvent::DelayMs(ms)]);
    }

    /// Blocks until the panel reports idle, sampling as `wait` says.
    pub fn wait_until_idle(&mut self, wait: Wait)
        ensures
            final(self)@ == old(self)@ + seq![BusEvent::WaitIdle(wait)],
    {
        self.push(Signal::WaitIdle(wait));
        assert(final(self)@ =~= old(self)@ + seq![BusEvent::WaitIdle(wait)]);
    }

    /// Whether the panel is busy, given one sample of the busy line.
    pub fn is_busy(line_is_low: bool, busy_is_low: bool) -> (r: bool)
        ensures
            r == busy_level(line_is_low, busy_is_low),
    {
        (busy_is_low && line_is_low) || (!busy_is_low && !line_is_low)
    }

    /// Pulses the reset line low for `pulse_ms` milliseconds, with a settle
    /// delay before and after. The pulse length is the panel model's own.
    pub fn reset(&mut self, pulse_ms: u8)
        ensures
            final(self)@ == old(self)@ + reset_sequence(pulse_ms),
    {
        self.push(Signal::Rst(true));
        self.push(Signal::DelayMs(RESET_SETTLE_MS));
        self.push(Signal::Rst(false));
        self.push(Signal::DelayMs(pulse_ms));
        self.push(Signal::Rst(true));
        self.push(Signal::DelayMs(RESET_SETTLE_MS));
        assert(final(self)@ =~= old(self)@ + reset_sequence(pulse_ms));
    }
}

/// What a panel driver looks like from outside: the signals it has queued
/// and not yet handed over, and its background color.
pub struct PanelState<C> {
    pub pending: Seq<BusEvent>,
    pub color: C,
}

impl<C> PanelState<C> {
    /// The state after queueing `s`.
    pub open spec fn send(self, s: Seq<BusEvent>) -> PanelState<C> {
        PanelState { pending: self.pending + s, color: self.color }
    }

    /// The state after the background color is set to `c`.
    pub open spec fn with_color(self, c: C) -> PanelState<C> {
        PanelState { pending: self.pending, color: c }
    }

    /// The state after the queue is handed over.
    pub open spec fn drained(self) -> PanelState<C> {
        PanelState { pending: Seq::empty(), color: self.color }
    }
}

/// Setting the background color and reading it back gives that color, and
/// queues nothing.
pub proof fn lemma_background_round_trip<C>(s: PanelState<C>, c: C)
    ensures
        s.with_color(c).color == c,
        s.with_color(c).pending == s.pending,
{
}

} // verus!
