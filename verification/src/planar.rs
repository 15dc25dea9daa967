//! Planar converter: reshapes an ordered array of colors into three parallel
//! per-channel planes (red, green, blue) in the device's wire form, as the
//! matrix upload requires.

use vstd::prelude::*;

use crate::color::RGB;
use crate::color::wire_of;

verus! {

pub trait RGBArrayExt<const N: usize> {
    /// The colors this container holds, in order.
    spec fn colors(&self) -> Seq<RGB>;

    /// Three parallel planes of wire-form channel bytes: position `i` of each
    /// plane is the corresponding channel of color `i`, truncated to six bits.
    fn to_planer_format(&self) -> (r: ([u8; N], [u8; N], [u8; N]))
        requires
            self.colors().len() == N,
        ensures
            forall|i: int| 0 <= i < N ==> r.0@[i] == wire_of(self.colors()[i].red),
            forall|i: int| 0 <= i < N ==> r.1@[i] == wire_of(self.colors()[i].green),
            forall|i: int| 0 <= i < N ==> r.2@[i] == wire_of(self.colors()[i].blue),
    ;
}

impl<const N: usize> RGBArrayExt<N> for [RGB; N] {
    open spec fn colors(&self) -> Seq<RGB> {
        self@
    }

    fn to_planer_format(&self) -> (r: ([u8; N], [u8; N], [u8; N])) {
        let mut red: [u8; N] = [0; N];
        let mut green: [u8; N] = [0; N];
        let mut blue: [u8; N] = [0; N];
        let mut col_index: usize = 0;
        while col_index < N
            invariant
                col_index <= N,
                red@.len() == N,
                green@.len() == N,
                blue@.len() == N,
                forall|j: int| 0 <= j < col_index ==> red@[j] == wire_of(self@[j].red),
                forall|j: int| 0 <= j < col_index ==> green@[j] == wire_of(self@[j].green),
                forall|j: int| 0 <= j < col_index ==> blue@[j] == wire_of(self@[j].blue),
            decreases N - col_index,
        {
            let rgb_bytes = self[col_index].to_6bit_bytes();
            red[col_index] = rgb_bytes[0];
            green[col_index] = rgb_bytes[1];
            blue[col_index] = rgb_bytes[2];
            col_index += 1;
        }
        (red, green, blue)
    }
}

} // verus!
