use vstd::prelude::*;

verus! {

/// The audio output devices by name, and for each the names of its output channels.
#[derive(Debug)]
pub struct DeviceList {
    pub devices: Vec<String>,
    pub channels: Vec<Vec<String>>,
}

impl DeviceList {
    /// The names in the list, as character sequences.
    pub open spec fn names(&self) -> (Seq<Seq<char>>, Seq<Seq<Seq<char>>>) {
        (self.devices.deep_view(), self.channels.deep_view())
    }

    pub fn new() -> (r: DeviceList)
        ensures
            r.names() == (Seq::<Seq<char>>::empty(), Seq::<Seq<Seq<char>>>::empty()),
    {
        let r = DeviceList { devices: Vec::new(), channels: Vec::new() };
        assert(r.devices.deep_view() =~= Seq::<Seq<char>>::empty());
        assert(r.channels.deep_view() =~= Seq::<Seq<Seq<char>>>::empty());
        r
    }

    /// Takes `latest` when it names other devices or channels, and tells whether it did.
    pub fn update(&mut self, latest: DeviceList) -> (changed: bool)
        ensures
            changed == (old(self).names() != latest.names()),
            final(self).names() == latest.names(),
    {
        let same = same_names(&self.devices, &latest.devices) && same_channel_names(
            &self.channels,
            &latest.channels,
        );
        if same {
            assert(self.names() == latest.names());
            false
        } else {
            *self = latest;
            true
        }
    }
}

/// Whether two lists hold the same names in the same order.
pub fn same_names(a: &Vec<String>, b: &Vec<String>) -> (r: bool)
    ensures
        r == (a.deep_view() == b.deep_view()),
{
    if a.len() != b.len() {
        assert(a.deep_view().len() != b.deep_view().len());
        return false;
    }
    let mut i: usize = 0;
    while i < a.len()
        invariant
            a@.len() == b@.len(),
            i <= a@.len(),
            forall|j: int| 0 <= j < i ==> a.deep_view()[j] == b.deep_view()[j],
        decreases a@.len() - i,
    {
        if a[i] != b[i] {
            assert(a.deep_view()[i as int] != b.deep_view()[i as int]);
            return false;
        }
        i += 1;
    }
    assert(a.deep_view() =~= b.deep_view());
    true
}

fn same_channel_names(a: &Vec<Vec<String>>, b: &Vec<Vec<String>>) -> (r: bool)
    ensures
        r == (a.deep_view() == b.deep_view()),
{
    if a.len() != b.len() {
        assert(a.deep_view().len() != b.deep_view().len());
        return false;
    }
    let mut i: usize = 0;
    while i < a.len()
        invariant
            a@.len() == b@.len(),
            i <= a@.len(),
            forall|j: int| 0 <= j < i ==> a.deep_view()[j] == b.deep_view()[j],
        decreases a@.len() - i,
    {
        if !same_names(&a[i], &b[i]) {
            assert(a.deep_view()[i as int] != b.deep_view()[i as int]);
            return false;
        }
        i += 1;
    }
    assert(a.deep_view() =~= b.deep_view());
    true
}

/// Takes the `latest` MIDI input port names when a default port exists and they differ
/// from `current`, and tells whether it did.
pub fn update_port_names(current: &mut Vec<String>, latest: Vec<String>, has_default_port: bool)
    -> (changed: bool)
    ensures
        changed == (has_default_port && old(current).deep_view() != latest.deep_view()),
        changed ==> final(current).deep_view() == latest.deep_view(),
        !changed ==> *final(current) == *old(current),
{
    if has_default_port && !same_names(current, &latest) {
        *current = latest;
        true
    } else {
        false
    }
}

} // verus!
