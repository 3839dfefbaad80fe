use crate::cluster_commands::{
    ClusterProcedure, DockerCommand, DockerCommandView, ProcedureView, Stage,
};
use crate::name_table::{distinct, NameTable};
use crate::text::{optional_text, texts};
use vstd::prelude::*;
use vstd::string::*;

verus! {

/// A node of the cluster, as far as the cluster itself reads it: it has a
/// name, by which it is kept and found, and a main public key. An
/// implementation says what the two are; one that does not leaves them
/// unspecified.
pub trait PulseCloakNode {
    /// The node's name.
    open spec fn spec_name(&self) -> Seq<char> {
        arbitrary()
    }

    fn name(&self) -> (result: &str)
        ensures
            result@ == self.spec_name(),
    ;

    /// The node's main public key.
    open spec fn spec_main_public_key(&self) -> Seq<u8> {
        arbitrary()
    }

    fn main_public_key(&self) -> (result: &[u8])
        ensures
            result@ == self.spec_main_public_key(),
    ;
}

/// A node that is known by its name and its main public key alone.
#[derive(Debug, PartialEq, Eq)]
pub struct NodeRecord {
    pub name: String,
    pub main_public_key: Vec<u8>,
}

impl PulseCloakNode for NodeRecord {
    open spec fn spec_name(&self) -> Seq<char> {
        self.name@
    }

    open spec fn spec_main_public_key(&self) -> Seq<u8> {
        self.main_public_key@
    }

    fn name(&self) -> (result: &str) {
        self.name.as_str()
    }

    fn main_public_key(&self) -> (result: &[u8]) {
        self.main_public_key.as_slice()
    }
}

/// Whether `list` holds what `first` or `second` holds, and nothing else.
pub open spec fn holds_both(
    list: Seq<Seq<char>>,
    first: Seq<Seq<char>>,
    second: Seq<Seq<char>>,
) -> bool {
    forall|item: Seq<char>| #[trigger]
        list.contains(item) <==> (first.contains(item) || second.contains(item))
}

/// What a list holds after one more item was put at its end.
proof fn lemma_contains_after_push(list: Seq<Seq<char>>, item: Seq<char>, other: Seq<char>)
    ensures
        list.push(item).contains(other) <==> (list.contains(other) || other == item),
{
    let longer = list.push(item);
    if list.contains(other) {
        let at = choose|at: int| 0 <= at < list.len() && list[at] == other;
        assert(longer[at] == other);
    }
    if other == item {
        assert(longer[list.len() as int] == other);
    }
}

/// Whether two lists of octets are the same.
fn same_octets(a: &[u8], b: &[u8]) -> (result: bool)
    ensures
        result == (a@ == b@),
{
    if a.len() != b.len() {
        return false;
    }
    let mut i: usize = 0;
    while i < a.len()
        invariant
            i <= a@.len(),
            a@.len() == b@.len(),
            forall|j: int| 0 <= j < i ==> a@[j] == b@[j],
        decreases a@.len() - i,
    {
        if a[i] != b[i] {
            return false;
        }
        i = i + 1;
    }
    assert(a@ =~= b@);
    true
}

/// A node found by name: one that runs the real program or one that stands
/// in for it.
pub enum ClusterNode<'a, R, M> {
    Real(&'a R),
    Mock(&'a M),
}

/// The host directory that the environment names: a value that is set and
/// not empty.
pub open spec fn host_dir_of(value: Option<Seq<char>>) -> Option<Seq<char>> {
    match value {
        Some(dir) if dir.len() > 0 => Some(dir),
        _ => None,
    }
}

/// A real node that was prepared for a later start: its name and index, and
/// the configuration it will start with.
pub struct PreparedNode<C> {
    pub name: String,
    pub index: usize,
    pub config: C,
}

/// The nodes of one test network, real and mock, each kind by name, the
/// configurations of the nodes that were prepared, and the index that the
/// next node to start will get.
///
/// The cluster keeps the books; starting and stopping the containers is its
/// owner's business.
pub struct PulseCloakNodeCluster<R, M, C> {
    startup_configs: Vec<PreparedNode<C>>,
    real_nodes: NameTable<R>,
    mock_nodes: NameTable<M>,
    host_node_parent_dir: Option<String>,
    next_index: usize,
}

impl<R: PulseCloakNode, M: PulseCloakNode, C> PulseCloakNodeCluster<R, M, C> {
    /// The nodes that were prepared, in order, each with its configuration.
    pub closed spec fn startup_configs(&self) -> Seq<PreparedNode<C>> {
        self.startup_configs@
    }

    /// The real nodes by name.
    pub closed spec fn real_nodes(&self) -> Map<Seq<char>, R> {
        self.real_nodes@
    }

    /// The mock nodes by name.
    pub closed spec fn mock_nodes(&self) -> Map<Seq<char>, M> {
        self.mock_nodes@
    }

    /// The directory on the host under which node directories are made, where
    /// the cluster runs inside a container itself.
    pub closed spec fn host_dir(&self) -> Option<Seq<char>> {
        optional_text(self.host_node_parent_dir)
    }

    /// The index of the next node to start.
    pub closed spec fn spec_next_index(&self) -> nat {
        self.next_index as nat
    }

    /// Well-formedness: each node is kept under its own name.
    pub closed spec fn wf(&self) -> bool {
        &&& self.real_nodes.wf()
        &&& self.mock_nodes.wf()
        &&& forall|name: Seq<char>| #[trigger]
            self.real_nodes@.dom().contains(name) ==> self.real_nodes@[name].spec_name() == name
        &&& forall|name: Seq<char>| #[trigger]
            self.mock_nodes@.dom().contains(name) ==> self.mock_nodes@[name].spec_name() == name
    }

    /// Whether the environment says that the cluster runs inside a container
    /// of the build server: the variable is set and not empty.
    pub fn is_in_jenkins(host_node_parent_dir: &Option<String>) -> (result: bool)
        ensures
            result == host_dir_of(optional_text(*host_node_parent_dir)).is_some(),
    {
        match host_node_parent_dir {
            Some(value) => !value.as_str().is_empty(),
            None => false,
        }
    }

    /// An empty cluster whose first node will get index 1.
    /// `host_node_parent_dir` is what the environment holds under that name.
    pub fn start(host_node_parent_dir: Option<String>) -> (result: Self)
        ensures
            result.wf(),
            result.real_nodes() == Map::<Seq<char>, R>::empty(),
            result.mock_nodes() == Map::<Seq<char>, M>::empty(),
            result.startup_configs() == Seq::<PreparedNode<C>>::empty(),
            result.host_dir() == host_dir_of(optional_text(host_node_parent_dir)),
            result.spec_next_index() == 1,
    {
        let host_node_parent_dir = match host_node_parent_dir {
            Some(hnpd) => if !hnpd.as_str().is_empty() {
                Some(hnpd)
            } else {
                None
            },
            None => None,
        };
        PulseCloakNodeCluster {
            startup_configs: Vec::new(),
            real_nodes: NameTable::new(),
            mock_nodes: NameTable::new(),
            host_node_parent_dir,
            next_index: 1,
        }
    }

    /// The index of the next node to start.
    pub fn next_index(&self) -> (result: usize)
        ensures
            result == self.spec_next_index(),
    {
        self.next_index
    }

    /// The host directory, for whoever starts a node.
    pub fn host_node_parent_dir(&self) -> (result: &Option<String>)
        ensures
            optional_text(*result) == self.host_dir(),
    {
        &self.host_node_parent_dir
    }

    /// Prepares a real node for a later start. Its index is one more than
    /// the number of nodes prepared so far, `make_name` names it by that
    /// index, and the node after it will get the index that follows.
    pub fn prepare_real_node<N: FnOnce(usize) -> String>(&mut self, config: C, make_name: N) -> (result:
        (String, usize))
        requires
            old(self).wf(),
            old(self).startup_configs().len() + 2 <= usize::MAX,
            call_requires(make_name, (((old(self).startup_configs().len() + 1) as usize),)),
        ensures
            final(self).wf(),
            result.1 == old(self).startup_configs().len() + 1,
            call_ensures(make_name, (result.1,), result.0),
            final(self).spec_next_index() == result.1 + 1,
            final(self).startup_configs().len() == result.1,
            final(self).startup_configs().drop_last() == old(self).startup_configs(),
            final(self).startup_configs().last().name == result.0,
            final(self).startup_configs().last().index == result.1,
            final(self).startup_configs().last().config == config,
            final(self).real_nodes() == old(self).real_nodes(),
            final(self).mock_nodes() == old(self).mock_nodes(),
            final(self).host_dir() == old(self).host_dir(),
    {
        let index = self.startup_configs.len() + 1;
        let name = make_name(index);
        self.next_index = index + 1;
        self.startup_configs.push(PreparedNode { name: name.clone(), index, config });
        (name, index)
    }

    /// Books the real node that was started under the next index: the index
    /// is spent, and the node stands under its name, in place of any that
    /// stood there.
    pub fn start_real_node(&mut self, node: R)
        requires
            old(self).wf(),
            old(self).spec_next_index() < usize::MAX,
        ensures
            final(self).wf(),
            final(self).spec_next_index() == old(self).spec_next_index() + 1,
            final(self).real_nodes() == old(self).real_nodes().insert(node.spec_name(), node),
            final(self).mock_nodes() == old(self).mock_nodes(),
            final(self).host_dir() == old(self).host_dir(),
            final(self).startup_configs() == old(self).startup_configs(),
    {
        self.next_index += 1;
        let name = String::from_str(node.name());
        self.real_nodes.insert(name, node);
    }

    /// Books the mock node that was started under the next index.
    pub fn start_mock_node_with_real_cryptde(&mut self, node: M)
        requires
            old(self).wf(),
            old(self).spec_next_index() < usize::MAX,
        ensures
            final(self).wf(),
            final(self).spec_next_index() == old(self).spec_next_index() + 1,
            final(self).mock_nodes() == old(self).mock_nodes().insert(node.spec_name(), node),
            final(self).real_nodes() == old(self).real_nodes(),
            final(self).host_dir() == old(self).host_dir(),
            final(self).startup_configs() == old(self).startup_configs(),
    {
        self.next_index += 1;
        let name = String::from_str(node.name());
        self.mock_nodes.insert(name, node);
    }

    /// Books a mock node that was started apart from the cluster and is now
    /// final. Its index was spent when it was started.
    pub fn finalize_and_add(&mut self, mock_node: M)
        requires
            old(self).wf(),
        ensures
            final(self).wf(),
            final(self).mock_nodes() == old(self).mock_nodes().insert(
                mock_node.spec_name(),
                mock_node,
            ),
            final(self).real_nodes() == old(self).real_nodes(),
            final(self).spec_next_index() == old(self).spec_next_index(),
            final(self).host_dir() == old(self).host_dir(),
            final(self).startup_configs() == old(self).startup_configs(),
    {
        let name = String::from_str(mock_node.name());
        self.mock_nodes.insert(name, mock_node);
    }

    /// Closes the books and begins the shutdown of the cluster's
    /// surroundings: the procedure to drive, and its first command.
    pub fn stop(self) -> (result: (ClusterProcedure, DockerCommand))
        ensures
            result.0@ == (ProcedureView {
                starting: false,
                in_jenkins: self.host_dir().is_some(),
                stage: Stage::ListContainers,
                containers: Seq::empty(),
                position: 0,
                failures: Seq::empty(),
            }),
            result.0@.wf(),
            result.1@ == DockerCommandView::ListContainers,
    {
        ClusterProcedure::shut_down(self.host_node_parent_dir.is_some())
    }

    /// Takes the node of that name off the books and hands it out: the real
    /// one if there is one, else the mock one.
    pub fn stop_node(&mut self, name: &str) -> (result: ClusterNodeOwned<R, M>)
        requires
            old(self).wf(),
            old(self).real_nodes().dom().contains(name@) || old(self).mock_nodes().dom().contains(
                name@,
            ),
        ensures
            final(self).wf(),
            final(self).spec_next_index() == old(self).spec_next_index(),
            final(self).host_dir() == old(self).host_dir(),
            final(self).startup_configs() == old(self).startup_configs(),
            match result {
                ClusterNodeOwned::Real(node) => {
                    &&& old(self).real_nodes().dom().contains(name@)
                    &&& node == old(self).real_nodes()[name@]
                    &&& final(self).real_nodes() == old(self).real_nodes().remove(name@)
                    &&& final(self).mock_nodes() == old(self).mock_nodes()
                },
                ClusterNodeOwned::Mock(node) => {
                    &&& !old(self).real_nodes().dom().contains(name@)
                    &&& node == old(self).mock_nodes()[name@]
                    &&& final(self).real_nodes() == old(self).real_nodes()
                    &&& final(self).mock_nodes() == old(self).mock_nodes().remove(name@)
                },
            },
    {
        match self.real_nodes.remove(name) {
            Some(node) => ClusterNodeOwned::Real(node),
            None => {
                match self.mock_nodes.remove(name) {
                    Some(node) => ClusterNodeOwned::Mock(node),
                    None => {
                        proof {
                            assert(false);
                        }
                        vstd::pervasive::unreached()
                    },
                }
            },
        }
    }

    /// The names of all nodes on the books, each once: those of the real
    /// nodes first, then those that only mock nodes bear.
    pub fn running_node_names(&self) -> (result: Vec<String>)
        requires
            self.wf(),
        ensures
            distinct(texts(result@)),
            texts(result@).to_set() == self.real_nodes().dom().union(self.mock_nodes().dom()),
    {
        let mut names = self.real_nodes.names();
        let mock_names = self.mock_nodes.names();
        let ghost real_names = texts(names@);
        let ghost mock_texts = texts(mock_names@);
        let mut i: usize = 0;
        while i < mock_names.len()
            invariant
                i <= mock_names@.len(),
                self.wf(),
                real_names.to_set() == self.real_nodes().dom(),
                mock_texts == texts(mock_names@),
                distinct(mock_texts),
                distinct(texts(names@)),
                holds_both(texts(names@), real_names, mock_texts.subrange(0, i as int)),
            decreases mock_names@.len() - i,
        {
            let ghost before = texts(names@);
            let ghost name = mock_texts[i as int];
            if self.real_nodes.get(mock_names[i].as_str()).is_none() {
                names.push(mock_names[i].clone());
                proof {
                    let after = texts(names@);
                    assert(after =~= before.push(name));
                    assert(!real_names.contains(name));
                    assert(!mock_texts.subrange(0, i as int).contains(name));
                    assert forall|a: int, b: int| 0 <= a < b < after.len() implies after[a]
                        != after[b] by {
                        if b == after.len() - 1 {
                            assert(before.contains(after[a]));
                        }
                    }
                    assert forall|other: Seq<char>| #[trigger]
                        after.contains(other) <==> (real_names.contains(other)
                            || mock_texts.subrange(0, i + 1).contains(other)) by {
                        lemma_contains_after_push(before, name, other);
                        lemma_contains_after_push(mock_texts.subrange(0, i as int), name, other);
                        assert(mock_texts.subrange(0, i + 1) =~= mock_texts.subrange(
                            0,
                            i as int,
                        ).push(name));
                    }
                }
            } else {
                proof {
                    assert(real_names.contains(name));
                    assert forall|other: Seq<char>| #[trigger]
                        texts(names@).contains(other) <==> (real_names.contains(other)
                            || mock_texts.subrange(0, i + 1).contains(other)) by {
                        lemma_contains_after_push(mock_texts.subrange(0, i as int), name, other);
                        assert(mock_texts.subrange(0, i + 1) =~= mock_texts.subrange(
                            0,
                            i as int,
                        ).push(name));
                    }
                }
            }
            i = i + 1;
        }
        proof {
            assert(mock_texts.subrange(0, mock_texts.len() as int) =~= mock_texts);
            assert(texts(names@).to_set() =~= self.real_nodes().dom().union(
                self.mock_nodes().dom(),
            ));
        }
        names
    }

    /// The real node of that name.
    pub fn get_real_node_by_name(&self, name: &str) -> (result: Option<&R>)
        requires
            self.wf(),
        ensures
            match result {
                Some(node) => self.real_nodes().dom().contains(name@) && *node
                    == self.real_nodes()[name@],
                None => !self.real_nodes().dom().contains(name@),
            },
    {
        self.real_nodes.get(name)
    }

    /// A real node with that main public key, if there is one. Where
    /// several have it, which of them is found is left open.
    pub fn get_real_node_by_key(&self, key: &[u8]) -> (result: Option<&R>)
        requires
            self.wf(),
        ensures
            match result {
                Some(node) => node.spec_main_public_key() == key@ && exists|name: Seq<char>|
                    self.real_nodes().dom().contains(name) && #[trigger] self.real_nodes()[name]
                        == *node,
                None => forall|name: Seq<char>|
                    self.real_nodes().dom().contains(name) ==> (#[trigger] self.real_nodes()[name]).spec_main_public_key()
                        != key@,
            },
    {
        let count = self.real_nodes.len();
        let mut place: usize = 0;
        while place < count
            invariant
                place <= count,
                count == self.real_nodes.spec_len(),
                self.real_nodes.wf(),
                forall|earlier: int|
                    0 <= earlier < place ==> (#[trigger] self.real_nodes@[self.real_nodes.name_at(
                        earlier,
                    )]).spec_main_public_key() != key@,
            decreases count - place,
        {
            let node = self.real_nodes.item_at(place);
            if same_octets(node.main_public_key(), key) {
                proof {
                    let name = self.real_nodes.name_at(place as int);
                    assert(self.real_nodes().dom().contains(name) && self.real_nodes()[name]
                        == *node);
                }
                return Some(node);
            }
            place = place + 1;
        }
        proof {
            assert forall|name: Seq<char>| self.real_nodes().dom().contains(name) implies (
            #[trigger] self.real_nodes()[name]).spec_main_public_key() != key@ by {
                self.real_nodes.lemma_name_has_place(name);
            }
        }
        None
    }

    /// The mock node of that name.
    pub fn get_mock_node_by_name(&self, name: &str) -> (result: Option<&M>)
        requires
            self.wf(),
        ensures
            match result {
                Some(node) => self.mock_nodes().dom().contains(name@) && *node
                    == self.mock_nodes()[name@],
                None => !self.mock_nodes().dom().contains(name@),
            },
    {
        self.mock_nodes.get(name)
    }

    /// The node of that name: the real one if there is one, else the mock one.
    pub fn get_node_by_name(&self, name: &str) -> (result: Option<ClusterNode<'_, R, M>>)
        requires
            self.wf(),
        ensures
            match result {
                Some(ClusterNode::Real(node)) => self.real_nodes().dom().contains(name@) && *node
                    == self.real_nodes()[name@],
                Some(ClusterNode::Mock(node)) => !self.real_nodes().dom().contains(name@)
                    && self.mock_nodes().dom().contains(name@) && *node == self.mock_nodes()[name@],
                None => !self.real_nodes().dom().contains(name@) && !self.mock_nodes().dom().contains(
                    name@,
                ),
            },
    {
        match self.real_nodes.get(name) {
            Some(node_ref) => Some(ClusterNode::Real(node_ref)),
            None => match self.mock_nodes.get(name) {
                Some(node_ref) => Some(ClusterNode::Mock(node_ref)),
                None => None,
            },
        }
    }
}

/// A node taken off the books.
pub enum ClusterNodeOwned<R, M> {
    Real(R),
    Mock(M),
}

} // verus!
