//! What a client measures, and the stream window it may be told to use.

use vstd::prelude::*;
use vstd::string::StringSliceAdditionalSpecFns;

use crate::bytes::{decimal_u64, parse_u64};

verus! {

/// The stream window for a congestion window that is given in decimal: half of
/// it. `None` where the text is no number.
pub fn stream_window_for(cwnd: &str) -> (window: Option<u64>)
    ensures
        window == match decimal_u64(cwnd.spec_bytes()) {
            Some(n) => Some((n / 2) as u64),
            None => None::<u64>,
        },
{
    match parse_u64(cwnd.as_bytes()) {
        Some(n) => Some(n / 2),
        None => None,
    }
}

/// The bytes of a reply's body that have arrived.
#[derive(Debug, Clone, Copy)]
pub struct Download {
    pub total: usize,
}

impl Download {
    /// A download of which nothing has arrived.
    pub fn start() -> (download: Download)
        ensures
            download.total == 0,
    {
        Download { total: 0 }
    }

    /// Counts the bytes of one more piece of data.
    pub fn record(&mut self, len: usize)
        requires
            old(self).total + len <= usize::MAX,
        ensures
            final(self).total == old(self).total + len,
    {
        self.total = self.total + len;
    }

    /// What has arrived, in bits.
    pub fn bits(&self) -> (bits: usize)
        requires
            self.total * 8 <= usize::MAX,
        ensures
            bits == self.total * 8,
    {
        self.total * 8
    }
}

/// Of what `stream_window_for` gives, beside the number that is read of the same
/// text: there is a window where there is a number, and twice the window is the
/// number, or one less where the number is odd.
pub proof fn the_stream_window_is_half(
    cwnd: &str,
    window: Option<u64>,
    bytes: &[u8],
    number: Option<u64>,
)
    requires
        call_ensures(stream_window_for, (cwnd,), window),
        call_ensures(parse_u64, (bytes,), number),
        bytes@ == cwnd.spec_bytes(),
    ensures
        window is Some <==> number is Some,
        window is Some ==> 2 * window->0 <= number->0 <= 2 * window->0 + 1,
{
}

/// A download starts with nothing, and every byte recorded counts once, as
/// eight bits.
pub proof fn a_download_counts_every_byte(
    fresh: Download,
    download: &mut Download,
    len: usize,
    bits_fresh: usize,
    bits_before: usize,
    bits_after: usize,
)
    requires
        call_ensures(Download::start, (), fresh),
        call_ensures(Download::bits, (&fresh,), bits_fresh),
        call_ensures(Download::record, (download, len), ()),
        call_ensures(Download::bits, (old(download),), bits_before),
        call_ensures(Download::bits, (final(download),), bits_after),
    ensures
        fresh.total == 0,
        bits_fresh == 0,
        final(download).total - old(download).total == len,
        bits_before == 8 * old(download).total,
        bits_after - bits_before == 8 * len,
{
}

} // verus!
