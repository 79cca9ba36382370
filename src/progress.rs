use vstd::prelude::*;

verus! {

/// Whether an operation is being tracked.
#[derive(Debug, Clone, Copy, PartialEq, Eq, Structural)]
pub enum ProgressMode {
    Idle,
    Active,
}

/// Text shown while no operation runs.
pub open spec fn idle_message() -> Seq<char> {
    "No active operation"@
}

/// Progress of one long operation: bytes written out of a total, and a
/// message. Written bytes never exceed the total.
pub struct ProgressBar {
    mode: ProgressMode,
    total_bytes: u64,
    written_bytes: u64,
    message: String,
}

impl ProgressBar {
    pub closed spec fn mode_spec(&self) -> ProgressMode {
        self.mode
    }

    pub closed spec fn total_spec(&self) -> u64 {
        self.total_bytes
    }

    pub closed spec fn written_spec(&self) -> u64 {
        self.written_bytes
    }

    pub closed spec fn message_spec(&self) -> Seq<char> {
        self.message@
    }

    pub open spec fn wf(&self) -> bool {
        self.written_spec() <= self.total_spec()
    }

    /// An idle bar.
    pub fn new() -> (r: ProgressBar)
        ensures
            r.wf(),
            r.mode_spec() == ProgressMode::Idle,
            r.total_spec() == 0,
            r.written_spec() == 0,
            r.message_spec() == idle_message(),
    {
        ProgressBar {
            mode: ProgressMode::Idle,
            total_bytes: 0,
            written_bytes: 0,
            message: String::from_str("No active operation"),
        }
    }

    /// Starts tracking an operation of `total_bytes` bytes.
    pub fn start(&mut self, total_bytes: u64, message: String)
        ensures
            final(self).wf(),
            final(self).mode_spec() == ProgressMode::Active,
            final(self).total_spec() == total_bytes,
            final(self).written_spec() == 0,
            final(self).message_spec() == message@,
    {
        self.mode = ProgressMode::Active;
        self.total_bytes = total_bytes;
        self.written_bytes = 0;
        self.message = message;
    }

    /// Updates the bytes written, capped at the total; ignored while idle.
    pub fn set_written(&mut self, bytes: u64)
        requires
            old(self).wf(),
        ensures
            final(self).wf(),
            final(self).mode_spec() == old(self).mode_spec(),
            final(self).total_spec() == old(self).total_spec(),
            final(self).message_spec() == old(self).message_spec(),
            final(self).written_spec() == if old(self).mode_spec() == ProgressMode::Active {
                if bytes < old(self).total_spec() {
                    bytes
                } else {
                    old(self).total_spec()
                }
            } else {
                old(self).written_spec()
            },
    {
        if self.mode == ProgressMode::Active {
            self.written_bytes = if bytes < self.total_bytes {
                bytes
            } else {
                self.total_bytes
            };
        }
    }

    /// Replaces the message; ignored while idle.
    pub fn set_message(&mut self, message: String)
        requires
            old(self).wf(),
        ensures
            final(self).wf(),
            final(self).mode_spec() == old(self).mode_spec(),
            final(self).total_spec() == old(self).total_spec(),
            final(self).written_spec() == old(self).written_spec(),
            final(self).message_spec() == if old(self).mode_spec() == ProgressMode::Active {
                message@
            } else {
                old(self).message_spec()
            },
    {
        if self.mode == ProgressMode::Active {
            self.message = message;
        }
    }

    /// Ends tracking and returns to the idle bar.
    pub fn finish(&mut self)
        ensures
            final(self).wf(),
            final(self).mode_spec() == ProgressMode::Idle,
            final(self).total_spec() == 0,
            final(self).written_spec() == 0,
            final(self).message_spec() == idle_message(),
    {
        self.mode = ProgressMode::Idle;
        self.total_bytes = 0;
        self.written_bytes = 0;
        self.message = String::from_str("No active operation");
    }

    pub fn mode(&self) -> (r: ProgressMode)
        ensures
            r == self.mode_spec(),
    {
        self.mode
    }

    pub fn total_bytes(&self) -> (r: u64)
        ensures
            r == self.total_spec(),
    {
        self.total_bytes
    }

    pub fn written_bytes(&self) -> (r: u64)
        ensures
            r == self.written_spec(),
    {
        self.written_bytes
    }

    pub fn message(&self) -> (r: &str)
        ensures
            r@ == self.message_spec(),
    {
        self.message.as_str()
    }

    /// The share of the total written, scaled to `width` and rounded to the
    /// nearest whole number (halves up); 0 for an empty total. With `width`
    /// 100 this is the percentage shown.
    pub fn scaled(&self, width: u32) -> (r: u64)
        requires
            self.wf(),
        ensures
            self.total_spec() == 0 ==> r == 0,
            self.total_spec() > 0 ==> r == (2 * (self.written_spec() as int) * (width as int)
                + self.total_spec() as int) / (2 * (self.total_spec() as int)),
            r <= width,
    {
        if self.total_bytes == 0 {
            0
        } else {
            let w = self.written_bytes as u128;
            let t = self.total_bytes as u128;
            let k = width as u128;
            proof {
                assert(2 * w * k <= 2 * t * k) by (nonlinear_arith)
                    requires w <= t;
                assert(2 * t * k + t < 0x1_0000_0000_0000_0000_0000_0000_0000_0000) by (nonlinear_arith)
                    requires t < 0x1_0000_0000_0000_0000, k < 0x1_0000_0000;
                assert((2 * w * k + t) / (2 * t) <= k) by (nonlinear_arith)
                    requires w <= t, t > 0;
            }
            ((2 * w * k + t) / (2 * t)) as u64
        }
    }
}

} // verus!
