use vstd::prelude::*;

verus! {

/// One interleaved PCM sample, carried as the raw bit pattern of the 32-bit
/// value the capture callback delivers. The pipeline never interprets a
/// sample's value; it only moves, groups and counts samples, so the bit
/// pattern is all it needs to hold.
#[derive(Clone, Copy, PartialEq, Eq, Structural, Debug)]
pub struct Sample {
    pub bits: u32,
}

/// A fixed-length buffer of raw samples, handed to the codec as one encode
/// operation. Only full frames — whose length the encoder fixes to an exact
/// multiple of the channel count — are ever built.
pub struct SampleFrame {
    pub samples: Vec<Sample>,
}

impl View for SampleFrame {
    type V = Seq<Sample>;

    open spec fn view(&self) -> Seq<Sample> {
        self.samples@
    }
}

/// Why no capture device could be selected.
///
/// The two cases are told apart so that the caller can explain a missing
/// loopback driver differently from a mistyped interface name.
#[derive(Clone, Copy, PartialEq, Eq, Structural, Debug)]
pub enum DeviceLookupError {
    /// The requested interface was the platform's default loopback driver,
    /// and that driver is not installed.
    DefaultDriverMissing,
    /// A specifically named interface matched no device on the host.
    InterfaceNotFound,
}

/// Picks the capture device to use: the first device whose name equals the
/// requested interface. When nothing matches, the error says whether the
/// request was for the platform's default driver (`default_name`) or for
/// some other interface.
pub fn select_device(names: &Vec<String>, requested: &String, default_name: &String) -> (r: Result<
    usize,
    DeviceLookupError,
>)
    ensures
        r matches Ok(i) ==> {
            &&& i < names@.len()
            &&& names@[i as int]@ == requested@
            &&& forall|j: int| 0 <= j < i ==> names@[j]@ != requested@
        },
        r matches Err(_) ==> forall|j: int| 0 <= j < names@.len() ==> names@[j]@ != requested@,
        r matches Err(e) ==> e == (if requested@ == default_name@ {
            DeviceLookupError::DefaultDriverMissing
        } else {
            DeviceLookupError::InterfaceNotFound
        }),
        (exists|j: int| 0 <= j < names@.len() && names@[j]@ == requested@) <==> r is Ok,
{
    let n = names.len();
    let mut i: usize = 0;
    while i < n
        invariant
            i <= n,
            n == names@.len(),
            forall|j: int| 0 <= j < i ==> names@[j]@ != requested@,
        decreases n - i,
    {
        if names[i].eq(requested) {
            return Ok(i);
        }
        i = i + 1;
    }
    if requested.eq(default_name) {
        Err(DeviceLookupError::DefaultDriverMissing)
    } else {
        Err(DeviceLookupError::InterfaceNotFound)
    }
}

} // verus!
