use vstd::prelude::*;

verus! {

/// The characters of each string in a sequence of strings.
pub open spec fn strs(v: Seq<String>) -> Seq<Seq<char>> {
    v.map_values(|s: String| s@)
}

/// What is kept on disk: the user's name, the tasks still to do, and the
/// tasks already done, each list in display order.
#[derive(Debug)]
pub struct Data {
    pub user_name: String,
    pub tasks: Vec<String>,
    pub completed: Vec<String>,
}

/// The mathematical content of a [`Data`].
pub struct DataView {
    pub user_name: Seq<char>,
    pub tasks: Seq<Seq<char>>,
    pub completed: Seq<Seq<char>>,
}

impl View for Data {
    type V = DataView;

    open spec fn view(&self) -> DataView {
        DataView { user_name: self.user_name@, tasks: strs(self.tasks@), completed: strs(self.completed@) }
    }
}

/// Copies a list of strings.
pub fn copy_strings(v: &Vec<String>) -> (r: Vec<String>)
    ensures
        strs(r@) == strs(v@),
{
    let mut r: Vec<String> = Vec::new();
    let mut i: usize = 0;
    while i < v.len()
        invariant
            i <= v.len(),
            r@.len() == i,
            forall|k: int| 0 <= k < i ==> #[trigger] r@[k]@ == v@[k]@,
        decreases v.len() - i,
    {
        let s = v[i].clone();
        r.push(s);
        i = i + 1;
    }
    assert(strs(r@) =~= strs(v@));
    r
}

impl Data {
    /// Builds the data from its three parts.
    pub fn new(user_name: String, tasks: Vec<String>, completed: Vec<String>) -> (d: Data)
        ensures
            d.user_name == user_name,
            d.tasks == tasks,
            d.completed == completed,
    {
        Data { user_name, tasks, completed }
    }

    /// A copy of the data with the same content.
    pub fn duplicate(&self) -> (d: Data)
        ensures
            d@ == self@,
    {
        Data {
            user_name: self.user_name.clone(),
            tasks: copy_strings(&self.tasks),
            completed: copy_strings(&self.completed),
        }
    }
}

} // verus!
