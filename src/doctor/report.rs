use vstd::prelude::*;

verus! {

/// Outcome of one check.
#[derive(Debug, Clone, Copy, PartialEq, Eq, Structural)]
pub enum DoctorStatus {
    Pass,
    Warn,
    Error,
}

/// One line of the report.
#[derive(Debug, Clone)]
pub struct DoctorEntry {
    pub status: DoctorStatus,
    pub message: String,
}

/// The findings of the self-check, in the order they were made.
#[derive(Debug)]
pub struct DoctorReport {
    entries: Vec<DoctorEntry>,
}

impl View for DoctorReport {
    type V = Seq<(DoctorStatus, Seq<char>)>;

    closed spec fn view(&self) -> Seq<(DoctorStatus, Seq<char>)> {
        self.entries@.map_values(|e: DoctorEntry| (e.status, e.message@))
    }
}

impl DoctorReport {
    /// An empty report.
    pub fn new() -> (r: Self)
        ensures
            r@ == Seq::<(DoctorStatus, Seq<char>)>::empty(),
    {
        let r = DoctorReport { entries: Vec::new() };
        assert(r@ =~= Seq::<(DoctorStatus, Seq<char>)>::empty());
        r
    }

    fn add(&mut self, status: DoctorStatus, msg: String)
        ensures
            final(self)@ == old(self)@.push((status, msg@)),
    {
        self.entries.push(DoctorEntry { status, message: msg });
        assert(self@ =~= old(self)@.push((status, msg@)));
    }

    /// Records a passed check.
    pub fn ok(&mut self, msg: String)
        ensures
            final(self)@ == old(self)@.push((DoctorStatus::Pass, msg@)),
    {
        self.add(DoctorStatus::Pass, msg);
    }

    /// Records a warning.
    pub fn warn(&mut self, msg: String)
        ensures
            final(self)@ == old(self)@.push((DoctorStatus::Warn, msg@)),
    {
        self.add(DoctorStatus::Warn, msg);
    }

    /// Records a failed check.
    pub fn error(&mut self, msg: String)
        ensures
            final(self)@ == old(self)@.push((DoctorStatus::Error, msg@)),
    {
        self.add(DoctorStatus::Error, msg);
    }

    /// The entries, in order.
    pub fn entries(&self) -> (r: &Vec<DoctorEntry>)
        ensures
            r@.map_values(|e: DoctorEntry| (e.status, e.message@)) == self@,
    {
        &self.entries
    }
}

} // verus!
