//! Packet buffers and buffer-table rows of the USB peripheral.
//!
//! The peripheral's packet memory is accessed by half-words, so a buffer is
//! kept as 32 words of 16 bits and bytes are packed into it low byte first.

use vstd::prelude::*;
use crate::bytes::{lemma_word16, word16};

verus! {

/// One row of the buffer table: where an endpoint's two buffers lie in packet
/// memory, and how many bytes each holds.
#[allow(non_snake_case)]
#[derive(Copy, Clone, PartialEq, Eq, Structural, Debug)]
pub struct BTableRow {
    pub ADDR_TX: u16,
    pub COUNT_TX: u16,
    pub ADDR_RX: u16,
    pub COUNT_RX: u16,
}

/// The transmit and receive buffer of one endpoint, 64 bytes each.
pub struct EPBuf {
    pub tx: Vec<u16>,
    pub rx: Vec<u16>,
}

/// Number of 16-bit words in each buffer.
pub const EPBUF_WORDS: usize = 32;

/// Byte `i` of a buffer of packed words.
pub open spec fn word_byte(words: Seq<u16>, i: int) -> u8 {
    if i % 2 == 0 {
        (words[i / 2] & 0xff) as u8
    } else {
        (words[i / 2] >> 8) as u8
    }
}

/// The first `n` bytes of a buffer of packed words.
pub open spec fn bytes_of(words: Seq<u16>, n: int) -> Seq<u8> {
    Seq::new(n as nat, |i: int| word_byte(words, i))
}

/// Word `j` of `data` packed two bytes to a word; a last odd byte fills the
/// low half of its word and leaves the high half zero.
pub open spec fn packed_word(data: Seq<u8>, j: int) -> u16 {
    if 2 * j + 1 < data.len() {
        word16(data[2 * j], data[2 * j + 1])
    } else {
        data[2 * j] as u16
    }
}

impl EPBuf {
    /// Both buffers have their 32 words.
    pub open spec fn wf(&self) -> bool {
        self.tx@.len() == 32 && self.rx@.len() == 32
    }

    /// A buffer pair filled with zeros.
    pub fn new() -> (r: EPBuf)
        ensures
            r.wf(),
            forall|i: int| 0 <= i < 32 ==> r.tx@[i] == 0 && r.rx@[i] == 0,
    {
        let mut tx: Vec<u16> = Vec::new();
        let mut rx: Vec<u16> = Vec::new();
        let mut i: usize = 0;
        while i < 32
            invariant
                i <= 32,
                tx@.len() == i,
                rx@.len() == i,
                forall|j: int| 0 <= j < i ==> tx@[j] == 0 && rx@[j] == 0,
            decreases 32 - i,
        {
            tx.push(0);
            rx.push(0);
            i += 1;
        }
        EPBuf { tx, rx }
    }

    /// Copies `data` into the transmit buffer, two bytes to a word. The words
    /// behind the data are left as they were.
    pub fn write_tx(&mut self, data: &[u8])
        requires
            old(self).wf(),
            data@.len() <= 64,
        ensures
            final(self).wf(),
            final(self).rx@ == old(self).rx@,
            bytes_of(final(self).tx@, data@.len() as int) == data@,
            forall|j: int|
                0 <= j < (data@.len() + 1) / 2 ==> final(self).tx@[j] == packed_word(data@, j),
            forall|j: int|
                (data@.len() + 1) / 2 <= j < 32 ==> final(self).tx@[j] == old(self).tx@[j],
    {
        let n: usize = data.len();
        let mut idx: usize = 0;
        while idx < n / 2
            invariant
                n == data@.len(),
                n <= 64,
                idx <= n / 2,
                self.wf(),
                self.rx@ == old(self).rx@,
                forall|j: int| 0 <= j < idx ==> self.tx@[j] == packed_word(data@, j),
                forall|j: int| idx <= j < 32 ==> self.tx@[j] == old(self).tx@[j],
            decreases n / 2 - idx,
        {
            let w: u16 = (data[2 * idx] as u16) | ((data[2 * idx + 1] as u16) << 8);
            self.tx.set(idx, w);
            idx += 1;
        }
        if n & 1 == 1 {
            assert(n % 2 == 1) by (bit_vector)
                requires
                    n & 1 == 1,
            ;
            self.tx.set(n / 2, data[n - 1] as u16);
        } else {
            assert(n % 2 == 0) by (bit_vector)
                requires
                    n & 1 != 1,
            ;
        }
        proof {
            assert forall|i: int| 0 <= i < n implies word_byte(self.tx@, i) == data@[i] by {
                let j = i / 2;
                assert(self.tx@[j] == packed_word(data@, j));
                if 2 * j + 1 < n {
                    lemma_word16(0, data@[2 * j], data@[2 * j + 1]);
                } else {
                    lemma_word16(0, data@[2 * j], 0);
                }
            }
            assert(bytes_of(self.tx@, n as int) =~= data@);
        }
    }

    /// Copies the bytes that were received, as many as `btable` counts, out of
    /// the receive buffer.
    pub fn read_rx(&self, btable: &BTableRow) -> (data: Vec<u8>)
        requires
            self.wf(),
            btable.spec_rx_count() <= 64,
        ensures
            data@ == bytes_of(self.rx@, btable.spec_rx_count() as int),
    {
        let rx_len: usize = btable.rx_count();
        let mut data: Vec<u8> = Vec::new();
        let mut i: usize = 0;
        while i < rx_len
            invariant
                rx_len <= 64,
                i <= rx_len,
                self.wf(),
                data@ == bytes_of(self.rx@, i as int),
            decreases rx_len - i,
        {
            let word: u16 = self.rx[i / 2];
            if i % 2 == 0 {
                data.push((word & 0xff) as u8);
            } else {
                data.push((word >> 8) as u8);
            }
            i += 1;
            assert(data@ =~= bytes_of(self.rx@, i as int));
        }
        data
    }
}

impl BTableRow {
    /// An empty row.
    pub fn new() -> (r: BTableRow)
        ensures
            r == (BTableRow { ADDR_TX: 0, COUNT_TX: 0, ADDR_RX: 0, COUNT_RX: 0 }),
    {
        BTableRow { ADDR_TX: 0, COUNT_TX: 0, ADDR_RX: 0, COUNT_RX: 0 }
    }

    /// Sets the number of bytes to transmit.
    pub fn tx_count(&mut self, n: usize)
        requires
            n <= 64,
        ensures
            *final(self) == (BTableRow { COUNT_TX: n as u16, ..*old(self) }),
    {
        self.COUNT_TX = n as u16;
    }

    /// The number of bytes received: the low ten bits of the receive count.
    pub open spec fn spec_rx_count(&self) -> usize {
        (self.COUNT_RX & 0x3FF) as usize
    }

    pub fn rx_count(&self) -> (n: usize)
        ensures
            n == self.spec_rx_count(),
            n < 1024,
    {
        let c: u16 = self.COUNT_RX;
        assert(c & 0x3FF < 1024) by (bit_vector);
        (c & 0x3FF) as usize
    }

    /// Points the row at a buffer pair whose transmit and receive halves lie
    /// at the given offsets in packet memory, with nothing to transmit and
    /// room for 64 received bytes (two blocks of 32).
    pub fn write(&mut self, addr_tx: u16, addr_rx: u16)
        ensures
            *final(self) == (BTableRow {
                ADDR_TX: addr_tx,
                COUNT_TX: 0,
                ADDR_RX: addr_rx,
                COUNT_RX: 0x8400,
            }),
            final(self).spec_rx_count() == 0,
    {
        self.ADDR_TX = addr_tx;
        self.ADDR_RX = addr_rx;
        self.COUNT_TX = 0;
        self.COUNT_RX = 0x8400;
        assert(0x8400u16 & 0x3FF == 0) by (bit_vector);
    }
}

} // verus!
