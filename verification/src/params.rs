use vstd::prelude::*;
use crate::decimal::decimal;
use crate::textbox::{TextValue, TextboxData};

verus! {

/// Settings of an evaluation that only the evaluator needs.
pub struct FormulacParams {
    pub num_threads: usize,
}

/// How many iterations each of `num_threads` threads runs so that together
/// they run at most `num_iters`: the quotient, truncated to `usize`.
pub fn iterations_per_thread(num_iters: u64, num_threads: usize) -> (r: usize)
    requires
        num_threads > 0,
    ensures
        r == (num_iters / (num_threads as u64)) as usize,
{
    (num_iters / num_threads as u64) as usize
}

/// Settings of the preview: its resolution, the number of iterations of an
/// ordinary run and of a snapshot, and the number of threads.
pub struct PreviewParams {
    pub frame: [TextboxData<u32>; 2],
    pub num_iters: TextboxData<u64>,
    pub num_snapshot_iters: TextboxData<u64>,
    pub num_threads: TextboxData<usize>,
}

/// The box `b` holds `v` and shows it.
pub open spec fn shows<T: TextValue>(b: TextboxData<T>, v: T) -> bool {
    &&& b.value == v
    &&& b.text@ == T::rendered(v@)
}

impl PreviewParams {
    /// The preview settings the panel starts with: a 1000 by 1000 frame,
    /// 1000000 iterations, 10000000 for a snapshot, and `num_threads` threads
    /// (the machine's parallelism, which the caller reads).
    pub fn new(num_threads: usize) -> (r: Self)
        ensures
            r.frame[0].value == 1000u32,
            r.frame[0].text@ == decimal(1000u32 as nat),
            r.frame[1].value == 1000u32,
            r.frame[1].text@ == decimal(1000u32 as nat),
            r.num_iters.value == 1000000u64,
            r.num_iters.text@ == decimal(1000000u64 as nat),
            r.num_snapshot_iters.value == 10000000u64,
            r.num_snapshot_iters.text@ == decimal(10000000u64 as nat),
            r.num_threads.value == num_threads,
            r.num_threads.text@ == decimal(num_threads as nat),
    {
        PreviewParams {
            frame: [TextboxData::new(1000u32), TextboxData::new(1000u32)],
            num_iters: TextboxData::new(1000000u64),
            num_snapshot_iters: TextboxData::new(10000000u64),
            num_threads: TextboxData::new(num_threads),
        }
    }

    /// The preview resolution, width first.
    pub fn get_frame(&self) -> (r: [usize; 2])
        ensures
            r[0] == self.frame[0].value,
            r[1] == self.frame[1].value,
    {
        [self.frame[0].value as usize, self.frame[1].value as usize]
    }

    /// Iterations of an ordinary preview run.
    pub fn get_num_iters(&self) -> (r: u64)
        ensures
            r == self.num_iters.value,
    {
        self.num_iters.value
    }

    /// Iterations of a snapshot.
    pub fn get_num_snapshot_iters(&self) -> (r: u64)
        ensures
            r == self.num_snapshot_iters.value,
    {
        self.num_snapshot_iters.value
    }

    /// Threads of a preview run.
    pub fn get_num_threads(&self) -> (r: usize)
        ensures
            r == self.num_threads.value,
    {
        self.num_threads.value
    }
}

/// Settings of an export: the image resolution, iterations, threads and the
/// file name.
pub struct ExportParams {
    pub frame: [TextboxData<usize>; 2],
    pub num_iters: TextboxData<u64>,
    pub num_threads: TextboxData<usize>,
    pub file_name: TextboxData<String>,
}

impl ExportParams {
    /// The export settings the panel starts with: a 2000 by 2000 image,
    /// 1000000 iterations, `num_threads` threads and the file `output.png`.
    pub fn new(num_threads: usize) -> (r: Self)
        ensures
            r.frame[0].value == 2000usize,
            r.frame[0].text@ == decimal(2000usize as nat),
            r.frame[1].value == 2000usize,
            r.frame[1].text@ == decimal(2000usize as nat),
            r.num_iters.value == 1000000u64,
            r.num_iters.text@ == decimal(1000000u64 as nat),
            r.num_threads.value == num_threads,
            r.num_threads.text@ == decimal(num_threads as nat),
            r.file_name.value@ == "output.png"@,
            r.file_name.text@ == "output.png"@,
    {
        ExportParams {
            frame: [TextboxData::new(2000usize), TextboxData::new(2000usize)],
            num_iters: TextboxData::new(1000000u64),
            num_threads: TextboxData::new(num_threads),
            file_name: TextboxData::new("output.png".to_owned()),
        }
    }

    /// The export resolution, width first.
    pub fn get_frame(&self) -> (r: [usize; 2])
        ensures
            r[0] == self.frame[0].value,
            r[1] == self.frame[1].value,
    {
        [self.frame[0].value, self.frame[1].value]
    }

    /// Iterations of an export run.
    pub fn get_num_iters(&self) -> (r: u64)
        ensures
            r == self.num_iters.value,
    {
        self.num_iters.value
    }

    /// What the export settings report as their thread count. It is read
    /// from the iteration box, not from the thread box.
    pub fn get_num_threads(&self) -> (r: u64)
        ensures
            r == self.num_iters.value,
    {
        self.num_iters.value
    }

    /// The export file name.
    pub fn get_file_name(&self) -> (r: String)
        ensures
            r@ == self.file_name.value@,
    {
        self.file_name.value.clone()
    }
}

} // verus!
