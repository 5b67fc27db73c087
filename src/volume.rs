use vstd::prelude::*;

verus! {

/// A snapshot of one storage volume, as fetched from the container runtime.
#[derive(Debug, PartialEq, Eq)]
pub struct VolumeRecord {
    pub name: String,
    pub driver: String,
    pub mountpoint: String,
    pub created_at: Option<String>,
}

/// The creation time as displayed: the empty text when it is unknown.
pub open spec fn created_text(v: VolumeRecord) -> Seq<char> {
    match v.created_at {
        Some(c) => c@,
        None => Seq::empty(),
    }
}

impl VolumeRecord {
    pub fn new(name: String, driver: String, mountpoint: String, created_at: Option<String>) -> (r:
        Self)
        ensures
            r == (VolumeRecord { name, driver, mountpoint, created_at }),
    {
        VolumeRecord { name, driver, mountpoint, created_at }
    }

    /// An equal copy of this record.
    pub fn duplicate(&self) -> (r: Self)
        ensures
            r == *self,
    {
        let created_at = match &self.created_at {
            Some(c) => Some(c.clone()),
            None => None,
        };
        VolumeRecord {
            name: self.name.clone(),
            driver: self.driver.clone(),
            mountpoint: self.mountpoint.clone(),
            created_at,
        }
    }

    /// The cells of this volume's table row: name, driver, mountpoint and creation time.
    pub fn row_cells(&self) -> (r: Vec<String>)
        ensures
            r@.len() == 4,
            r@[0]@ == self.name@,
            r@[1]@ == self.driver@,
            r@[2]@ == self.mountpoint@,
            r@[3]@ == created_text(*self),
    {
        let created = match &self.created_at {
            Some(c) => c.clone(),
            None => String::new(),
        };
        let mut cells: Vec<String> = Vec::new();
        cells.push(self.name.clone());
        cells.push(self.driver.clone());
        cells.push(self.mountpoint.clone());
        cells.push(created);
        cells
    }
}

/// The rows of the volume table, one per record and in list order.
pub fn volume_rows(volumes: &Vec<VolumeRecord>) -> (r: Vec<Vec<String>>)
    ensures
        r@.len() == volumes@.len(),
        forall|i: int|
            0 <= i < r@.len() ==> {
                &&& #[trigger] r@[i]@.len() == 4
                &&& r@[i]@[0]@ == volumes@[i].name@
                &&& r@[i]@[1]@ == volumes@[i].driver@
                &&& r@[i]@[2]@ == volumes@[i].mountpoint@
                &&& r@[i]@[3]@ == created_text(volumes@[i])
            },
{
    let mut rows: Vec<Vec<String>> = Vec::new();
    let mut i: usize = 0;
    while i < volumes.len()
        invariant
            i <= volumes@.len(),
            rows@.len() == i,
            forall|j: int|
                0 <= j < i ==> {
                    &&& #[trigger] rows@[j]@.len() == 4
                    &&& rows@[j]@[0]@ == volumes@[j].name@
                    &&& rows@[j]@[1]@ == volumes@[j].driver@
                    &&& rows@[j]@[2]@ == volumes@[j].mountpoint@
                    &&& rows@[j]@[3]@ == created_text(volumes@[j])
                },
        decreases volumes@.len() - i,
    {
        rows.push(volumes[i].row_cells());
        i = i + 1;
    }
    rows
}

} // verus!
