//! The session: a loaded computation graph, its cached name lists, and the
//! ordering decisions for every run call.
//!
//! The engine names a session's inputs and outputs through allocator-owned
//! character buffers that are queried once at construction and must be freed
//! exactly once at teardown.  A [`CachedName`] pairs such a buffer's handle
//! with its decoded text.  The [`Session`] owns the environment and session
//! handles and the two cached name lists; [`SessionBuilder`] collects the
//! resources acquired during construction so that a failure part-way through
//! releases every one of them.  Every engine call itself happens outside;
//! this module makes the decisions and accounts for the handles.

use vstd::prelude::*;

use crate::error::{Error, ErrorStatus};
use crate::type_info::{raw_decode_err, raw_decodes_ok, type_info_decodes, RawTypeInfo, TypeInfo};
use crate::value::Value;
use crate::{ReleaseAction, ResourceKind, Wrapper};

verus! {

/// One cached input or output name: the allocator-owned character buffer
/// that holds it (to be freed exactly once at teardown) and its text.
#[derive(Debug)]
pub struct CachedName {
    ptr: Wrapper,
    text: String,
}

impl CachedName {
    /// The handle of the allocator-owned character buffer.
    pub closed spec fn spec_ptr(&self) -> Wrapper {
        self.ptr
    }

    /// The name text.
    pub closed spec fn spec_text(&self) -> Seq<char> {
        self.text@
    }

    /// A cached name owns a live character buffer.
    pub open spec fn wf(&self) -> bool {
        self.spec_ptr().wf() && self.spec_ptr().spec_kind() == ResourceKind::AllocatedChars
    }

    /// Pairs a name buffer's handle with its decoded text.
    pub fn new(ptr: Wrapper, text: String) -> (r: Self)
        requires
            ptr.wf(),
            ptr.spec_kind() == ResourceKind::AllocatedChars,
        ensures
            r.spec_ptr() == ptr,
            r.spec_text() == text@,
            r.wf(),
    {
        CachedName { ptr, text }
    }

    /// The name text.
    pub fn text(&self) -> (r: &String)
        ensures
            r@ == self.spec_text(),
    {
        &self.text
    }

    /// The release action that frees this name's buffer.
    pub open spec fn spec_release_action(&self) -> ReleaseAction {
        self.spec_ptr().spec_release_action()
    }

    /// Gives up the buffer, producing its one release action.
    pub fn release(self) -> (r: ReleaseAction)
        ensures
            r == self.spec_release_action(),
    {
        self.ptr.release()
    }
}

/// The raw pointer of the first value paired with `name`, scanning the
/// mapping front to back.
pub open spec fn spec_lookup_raw(pairs: Seq<(String, Value)>, name: Seq<char>) -> Option<usize>
    decreases pairs.len(),
{
    if pairs.len() == 0 {
        None
    } else if pairs.first().0@ == name {
        Some(pairs.first().1.spec_tensor().spec_data().spec_value().spec_raw())
    } else {
        spec_lookup_raw(pairs.drop_first(), name)
    }
}

proof fn lemma_lookup_found(pairs: Seq<(String, Value)>, name: Seq<char>, j: int)
    requires
        0 <= j < pairs.len(),
        forall|k: int| 0 <= k < j ==> (#[trigger] pairs[k]).0@ != name,
        pairs[j].0@ == name,
    ensures
        spec_lookup_raw(pairs, name) == Some(
            pairs[j].1.spec_tensor().spec_data().spec_value().spec_raw(),
        ),
    decreases j,
{
    if j > 0 {
        lemma_lookup_found(pairs.drop_first(), name, j - 1);
        assert(pairs.drop_first()[j - 1] == pairs[j]);
        assert(forall|k: int|
            0 <= k < j - 1 ==> (#[trigger] pairs.drop_first()[k]).0@ == pairs[k + 1].0@);
    }
}

/// Scans a name-to-value mapping for the first pair carrying `name` and
/// reads that value's raw pointer.
fn lookup_raw(pairs: &Vec<(String, Value)>, name: &String) -> (r: Option<usize>)
    ensures
        r == spec_lookup_raw(pairs@, name@),
{
    let m = pairs.len();
    let mut j: usize = 0;
    while j < m
        invariant
            m == pairs@.len(),
            j <= m,
            forall|k: int| 0 <= k < j ==> (#[trigger] pairs@[k]).0@ != name@,
        decreases m - j,
    {
        if pairs[j].0 == *name {
            proof {
                lemma_lookup_found(pairs@, name@, j as int);
            }
            return Some(pairs[j].1.ref_ort_value().raw());
        }
        j = j + 1;
    }
    proof {
        lemma_lookup_missing(pairs@, name@);
    }
    None
}

proof fn lemma_lookup_missing(pairs: Seq<(String, Value)>, name: Seq<char>)
    requires
        forall|k: int| 0 <= k < pairs.len() ==> (#[trigger] pairs[k]).0@ != name,
    ensures
        spec_lookup_raw(pairs, name) is None,
    decreases pairs.len(),
{
    if pairs.len() > 0 {
        assert(forall|k: int|
            0 <= k < pairs.len() - 1 ==> (#[trigger] pairs.drop_first()[k]).0@ == pairs[
                k + 1
            ].0@);
        lemma_lookup_missing(pairs.drop_first(), name);
    }
}

/// One output handed back by the engine after a run call: the value handle
/// and the runtime type facts queried from it.
#[derive(Debug)]
pub struct RunOutput {
    /// The engine-owned output value.
    pub value: Wrapper,
    /// The container kind code of the value.
    pub onnx_type: u32,
    /// The element type code of the value.
    pub dtype_code: u32,
    /// The shape of the value.
    pub shape: Vec<usize>,
}

impl RunOutput {
    /// An output owns a live value handle.
    pub open spec fn wf(&self) -> bool {
        self.value.wf() && self.value.spec_kind() == ResourceKind::Value
    }

    /// Whether this output decodes into a supported tensor variant.
    pub open spec fn decodes_ok(&self) -> bool {
        self.onnx_type == crate::type_info::ONNX_TYPE_TENSOR
            && crate::type_info::spec_dtype_of_code(self.dtype_code) is Some
    }

    /// The error an output that does not decode produces.
    pub open spec fn decode_err(&self) -> Error {
        if self.onnx_type != crate::type_info::ONNX_TYPE_TENSOR {
            Error::UnsupportedContainerKind(self.onnx_type)
        } else {
            Error::UnsupportedDType(self.dtype_code)
        }
    }
}

/// A loaded computation graph bound to its environment, with the input and
/// output name lists queried once at construction and fixed thereafter.
///
/// Whether one session may serve concurrent run calls is the engine's
/// per-kind capability ([`ResourceKind::thread_shareable`]); this layer
/// holds no lock of its own around engine calls.
#[derive(Debug)]
pub struct Session {
    env: Wrapper,
    ort_sess: Wrapper,
    allocator: usize,
    input_names: Vec<CachedName>,
    output_names: Vec<CachedName>,
}

impl Session {
    /// The environment handle.
    pub closed spec fn spec_env(&self) -> Wrapper {
        self.env
    }

    /// The native session handle.
    pub closed spec fn spec_sess(&self) -> Wrapper {
        self.ort_sess
    }

    /// The allocator pointer word (not owned; never released).
    pub closed spec fn spec_allocator(&self) -> usize {
        self.allocator
    }

    /// The cached input names, in the engine's order.
    pub closed spec fn spec_input_names(&self) -> Seq<CachedName> {
        self.input_names@
    }

    /// The cached output names, in the engine's order.
    pub closed spec fn spec_output_names(&self) -> Seq<CachedName> {
        self.output_names@
    }

    /// A session owns a live environment, a live native session, and live
    /// name buffers.
    pub open spec fn wf(&self) -> bool {
        &&& self.spec_env().wf() && self.spec_env().spec_kind() == ResourceKind::Env
        &&& self.spec_sess().wf() && self.spec_sess().spec_kind() == ResourceKind::Session
        &&& forall|i: int|
            0 <= i < self.spec_input_names().len() ==> (#[trigger] self.spec_input_names()[i]).wf()
        &&& forall|i: int|
            0 <= i < self.spec_output_names().len() ==> (
            #[trigger] self.spec_output_names()[i]).wf()
    }

    /// Assembles a session from the resources construction acquired.
    pub fn new(
        env: Wrapper,
        ort_sess: Wrapper,
        allocator: usize,
        input_names: Vec<CachedName>,
        output_names: Vec<CachedName>,
    ) -> (r: Self)
        requires
            env.wf(),
            env.spec_kind() == ResourceKind::Env,
            ort_sess.wf(),
            ort_sess.spec_kind() == ResourceKind::Session,
            forall|i: int| 0 <= i < input_names@.len() ==> (#[trigger] input_names@[i]).wf(),
            forall|i: int| 0 <= i < output_names@.len() ==> (#[trigger] output_names@[i]).wf(),
        ensures
            r.spec_env() == env,
            r.spec_sess() == ort_sess,
            r.spec_allocator() == allocator,
            r.spec_input_names() == input_names@,
            r.spec_output_names() == output_names@,
            r.wf(),
    {
        Session { env, ort_sess, allocator, input_names, output_names }
    }

    /// The native session handle, for handing to an engine call.
    pub fn sess(&self) -> (r: &Wrapper)
        ensures
            *r == self.spec_sess(),
    {
        &self.ort_sess
    }

    /// The allocator pointer word.
    pub fn allocator(&self) -> (r: usize)
        ensures
            r == self.spec_allocator(),
    {
        self.allocator
    }

    /// The cached input names, in the engine's order.
    pub fn input_names(&self) -> (r: &Vec<CachedName>)
        ensures
            r@ == self.spec_input_names(),
    {
        &self.input_names
    }

    /// The cached output names, in the engine's order.
    pub fn output_names(&self) -> (r: &Vec<CachedName>)
        ensures
            r@ == self.spec_output_names(),
    {
        &self.output_names
    }

    /// The cached input name at a metadata index, or an index error for an
    /// index at or beyond the input count.
    pub fn input_name_at(&self, index: usize) -> (r: Result<&CachedName, Error>)
        ensures
            index < self.spec_input_names().len() ==> (r matches Ok(c) && *c
                == self.spec_input_names()[index as int]),
            index >= self.spec_input_names().len() ==> r == Err::<&CachedName, Error>(
                Error::Index { index, count: self.spec_input_names().len() as usize },
            ),
    {
        if index < self.input_names.len() {
            Ok(&self.input_names[index])
        } else {
            Err(Error::Index { index, count: self.input_names.len() })
        }
    }

    /// The cached output name at a metadata index, or an index error for an
    /// index at or beyond the output count.
    pub fn output_name_at(&self, index: usize) -> (r: Result<&CachedName, Error>)
        ensures
            index < self.spec_output_names().len() ==> (r matches Ok(c) && *c
                == self.spec_output_names()[index as int]),
            index >= self.spec_output_names().len() ==> r == Err::<&CachedName, Error>(
                Error::Index { index, count: self.spec_output_names().len() as usize },
            ),
    {
        if index < self.output_names.len() {
            Ok(&self.output_names[index])
        } else {
            Err(Error::Index { index, count: self.output_names.len() })
        }
    }

    /// Maps a caller-supplied name-to-value mapping into the cached input
    /// order, returning the raw value pointers to hand to the run call, one
    /// per cached input name, in the cached order.  Fails with a missing-
    /// input error naming the first cached name absent from the mapping.
    pub fn run_plan(&self, inputs: &Vec<(String, Value)>) -> (r: Result<Vec<usize>, Error>)
        ensures
            r is Ok <==> (forall|i: int|
                0 <= i < self.spec_input_names().len() ==> spec_lookup_raw(
                    inputs@,
                    (#[trigger] self.spec_input_names()[i]).spec_text(),
                ) is Some),
            r matches Ok(v) ==> v@.len() == self.spec_input_names().len() && (forall|i: int|
                0 <= i < v@.len() ==> #[trigger] v@[i] == spec_lookup_raw(
                    inputs@,
                    self.spec_input_names()[i].spec_text(),
                ).unwrap()),
            r matches Err(e) ==> (e matches Error::MissingInput(m) && (exists|i: int|
                0 <= i < self.spec_input_names().len() && m@ == (
                #[trigger] self.spec_input_names()[i]).spec_text() && spec_lookup_raw(
                    inputs@,
                    self.spec_input_names()[i].spec_text(),
                ) is None && (forall|k: int|
                    0 <= k < i ==> spec_lookup_raw(
                        inputs@,
                        (#[trigger] self.spec_input_names()[k]).spec_text(),
                    ) is Some))),
    {
        let n = self.input_names.len();
        let mut out: Vec<usize> = Vec::new();
        let mut i: usize = 0;
        while i < n
            invariant
                n == self.spec_input_names().len(),
                i <= n,
                out@.len() == i,
                forall|j: int|
                    0 <= j < i ==> spec_lookup_raw(
                        inputs@,
                        (#[trigger] self.spec_input_names()[j]).spec_text(),
                    ) is Some,
                forall|j: int|
                    0 <= j < i ==> #[trigger] out@[j] == spec_lookup_raw(
                        inputs@,
                        self.spec_input_names()[j].spec_text(),
                    ).unwrap(),
            decreases n - i,
        {
            let name = &self.input_names[i];
            match lookup_raw(inputs, &name.text) {
                Some(raw) => {
                    out.push(raw);
                },
                None => {
                    return Err(Error::MissingInput(name.text.clone()));
                },
            }
            i = i + 1;
        }
        Ok(out)
    }

    /// Checks and decodes the ordered output handles a run call produced,
    /// pairing each with the requested output name at the same position.
    /// The result holds exactly the requested output names, in the requested
    /// order.  If the outputs cannot be decoded, every handle is handed back
    /// unconsumed beside the error, so that its owner can release it.
    pub fn accept_run_outputs(&self, outs: Vec<RunOutput>) -> (r: Result<
        Vec<(String, Value)>,
        (Vec<RunOutput>, Error),
    >)
        requires
            forall|i: int| 0 <= i < outs@.len() ==> (#[trigger] outs@[i]).wf(),
        ensures
            r is Ok <==> (outs@.len() == self.spec_output_names().len() && (forall|i: int|
                0 <= i < outs@.len() ==> (#[trigger] outs@[i]).decodes_ok())),
            r matches Ok(v) ==> v@.len() == outs@.len() && (forall|i: int|
                0 <= i < v@.len() ==> {
                    &&& (#[trigger] v@[i]).0@ == self.spec_output_names()[i].spec_text()
                    &&& v@[i].1.spec_tensor().spec_dtype()
                        == crate::type_info::spec_dtype_of_code(outs@[i].dtype_code).unwrap()
                    &&& v@[i].1.spec_tensor().spec_data().spec_value() == outs@[i].value
                    &&& v@[i].1.spec_tensor().spec_data().spec_shape() == outs@[i].shape@
                }),
            r matches Err((back, e)) ==> back@ == outs@ && (if outs@.len()
                != self.spec_output_names().len() {
                e matches Error::Validation(_)
            } else {
                exists|i: int|
                    0 <= i < outs@.len() && !(#[trigger] outs@[i]).decodes_ok() && e == outs@[
                        i
                    ].decode_err() && (forall|k: int|
                        0 <= k < i ==> (#[trigger] outs@[k]).decodes_ok())
            }),
    {
        let n = self.output_names.len();
        if outs.len() != n {
            return Err(
                (
                    outs,
                    Error::new_validation(
                        "engine returned a different number of outputs than requested".to_owned(),
                    ),
                ),
            );
        }
        let mut i: usize = 0;
        while i < n
            invariant
                n == outs@.len(),
                n == self.spec_output_names().len(),
                i <= n,
                forall|j: int| 0 <= j < i ==> (#[trigger] outs@[j]).decodes_ok(),
            decreases n - i,
        {
            if outs[i].onnx_type != crate::type_info::ONNX_TYPE_TENSOR {
                let e = Error::UnsupportedContainerKind(outs[i].onnx_type);
                proof {
                    assert(!outs@[i as int].decodes_ok());
                    assert(e == outs@[i as int].decode_err());
                }
                return Err((outs, e));
            }
            if let Err(e) = crate::type_info::TensorDataType::from_onnx_tensor_element_data_type(
                outs[i].dtype_code,
            ) {
                proof {
                    assert(!outs@[i as int].decodes_ok());
                    assert(e == outs@[i as int].decode_err());
                }
                return Err((outs, e));
            }
            i = i + 1;
        }
        let ghost orig = outs@;
        let mut outs = outs;
        let mut result: Vec<(String, Value)> = Vec::new();
        let mut k: usize = 0;
        while k < n
            invariant
                n == orig.len(),
                n == self.spec_output_names().len(),
                k <= n,
                outs@ == orig.skip(k as int),
                result@.len() == k,
                forall|j: int| 0 <= j < n ==> (#[trigger] orig[j]).wf() && orig[j].decodes_ok(),
                forall|j: int|
                    0 <= j < k ==> {
                        &&& (#[trigger] result@[j]).0@ == self.spec_output_names()[j].spec_text()
                        &&& result@[j].1.spec_tensor().spec_dtype()
                            == crate::type_info::spec_dtype_of_code(orig[j].dtype_code).unwrap()
                        &&& result@[j].1.spec_tensor().spec_data().spec_value() == orig[j].value
                        &&& result@[j].1.spec_tensor().spec_data().spec_shape() == orig[j].shape@
                    },
            decreases n - k,
        {
            proof {
                assert(outs@[0] == orig[k as int]);
                assert(orig.skip(k as int).remove(0) =~= orig.skip(k + 1));
            }
            let o = outs.remove(0);
            let name = self.output_names[k].text.clone();
            match o.value.into_value(o.onnx_type, o.dtype_code, o.shape) {
                Ok(v) => {
                    result.push((name, v));
                },
                Err(_) => {
                    // Every output was checked before any handle was moved.
                    return vstd::pervasive::unreached();
                },
            }
            k = k + 1;
        }
        Ok(result)
    }

    /// Decodes the per-index raw type records queried for this session's
    /// inputs into `(name, type info)` pairs, in the cached name order.
    pub fn get_input_infos(&self, raws: &Vec<RawTypeInfo>) -> (r: Result<
        Vec<(String, TypeInfo)>,
        Error,
    >)
        ensures
            r is Ok <==> (raws@.len() == self.spec_input_names().len() && (forall|i: int|
                0 <= i < raws@.len() ==> raw_decodes_ok(#[trigger] raws@[i]))),
            r matches Ok(v) ==> v@.len() == raws@.len() && (forall|i: int|
                0 <= i < v@.len() ==> (#[trigger] v@[i]).0@
                    == self.spec_input_names()[i].spec_text() && type_info_decodes(
                    raws@[i],
                    v@[i].1,
                )),
            r matches Err(e) ==> (if raws@.len() != self.spec_input_names().len() {
                e matches Error::Validation(_)
            } else {
                exists|i: int|
                    0 <= i < raws@.len() && !raw_decodes_ok(#[trigger] raws@[i]) && e
                        == raw_decode_err(raws@[i]) && (forall|k: int|
                        0 <= k < i ==> raw_decodes_ok(#[trigger] raws@[k]))
            }),
    {
        decode_infos(&self.input_names, raws)
    }

    /// Decodes the per-index raw type records queried for this session's
    /// outputs into `(name, type info)` pairs, in the cached name order.
    pub fn get_output_infos(&self, raws: &Vec<RawTypeInfo>) -> (r: Result<
        Vec<(String, TypeInfo)>,
        Error,
    >)
        ensures
            r is Ok <==> (raws@.len() == self.spec_output_names().len() && (forall|i: int|
                0 <= i < raws@.len() ==> raw_decodes_ok(#[trigger] raws@[i]))),
            r matches Ok(v) ==> v@.len() == raws@.len() && (forall|i: int|
                0 <= i < v@.len() ==> (#[trigger] v@[i]).0@
                    == self.spec_output_names()[i].spec_text() && type_info_decodes(
                    raws@[i],
                    v@[i].1,
                )),
            r matches Err(e) ==> (if raws@.len() != self.spec_output_names().len() {
                e matches Error::Validation(_)
            } else {
                exists|i: int|
                    0 <= i < raws@.len() && !raw_decodes_ok(#[trigger] raws@[i]) && e
                        == raw_decode_err(raws@[i]) && (forall|k: int|
                        0 <= k < i ==> raw_decodes_ok(#[trigger] raws@[k]))
            }),
    {
        decode_infos(&self.output_names, raws)
    }

    /// Pairs up the persisted producer metadata the engine reported: one
    /// key/value pair of allocator-owned character buffers per entry.  The
    /// texts are copied out in order, and every buffer -- key and value
    /// alike -- yields exactly one release action, since the metadata
    /// buffers are freed as soon as they are read.
    pub fn get_model_metadata(&self, entries: Vec<(CachedName, CachedName)>) -> (r: (
        Vec<(String, String)>,
        Vec<ReleaseAction>,
    ))
        ensures
            r.0@.len() == entries@.len(),
            forall|i: int|
                0 <= i < entries@.len() ==> (#[trigger] r.0@[i]).0@ == entries@[i].0.spec_text()
                    && r.0@[i].1@ == entries@[i].1.spec_text(),
            r.1@ == spec_metadata_actions(entries@),
    {
        let ghost orig = entries@;
        let mut entries = entries;
        let mut pairs: Vec<(String, String)> = Vec::new();
        let mut actions: Vec<ReleaseAction> = Vec::new();
        while entries.len() > 0
            invariant
                pairs@.len() + entries@.len() == orig.len(),
                entries@ == orig.skip(pairs@.len() as int),
                actions@ == spec_metadata_actions(orig.take(pairs@.len() as int)),
                forall|i: int|
                    0 <= i < pairs@.len() ==> (#[trigger] pairs@[i]).0@ == orig[i].0.spec_text()
                        && pairs@[i].1@ == orig[i].1.spec_text(),
            decreases entries@.len(),
        {
            let ghost k = pairs@.len() as int;
            proof {
                assert(entries@[0] == orig[k]);
                assert(orig.skip(k).remove(0) =~= orig.skip(k + 1));
                lemma_metadata_actions_step(orig, k);
            }
            let (key, value) = entries.remove(0);
            pairs.push((key.text().clone(), value.text().clone()));
            actions.push(key.release());
            actions.push(value.release());
            proof {
                assert(actions@ =~= spec_metadata_actions(orig.take(k + 1)));
            }
        }
        proof {
            assert(orig.take(orig.len() as int) =~= orig);
        }
        (pairs, actions)
    }

    /// The release actions of everything this session owns, each exactly
    /// once: every cached input name buffer, every cached output name
    /// buffer, then the native session, then the environment.
    pub open spec fn spec_close_actions(&self) -> Seq<ReleaseAction> {
        self.spec_input_names().map_values(|c: CachedName| c.spec_release_action())
            + self.spec_output_names().map_values(|c: CachedName| c.spec_release_action())
            + seq![
            self.spec_sess().spec_release_action(),
            self.spec_env().spec_release_action(),
        ]
    }

    /// Tears the session down, producing the release action for every
    /// resource it owns, each exactly once: the cached name buffers are
    /// freed through the allocator, then the native session and the
    /// environment are destroyed.
    pub fn close(self) -> (r: Vec<ReleaseAction>)
        ensures
            r@ == self.spec_close_actions(),
    {
        let Session { env, ort_sess, allocator: _, input_names, output_names } = self;
        let mut actions: Vec<ReleaseAction> = Vec::new();
        push_name_actions(input_names, &mut actions);
        push_name_actions(output_names, &mut actions);
        actions.push(ort_sess.release());
        actions.push(env.release());
        proof {
            assert(actions@ =~= self.spec_close_actions());
        }
        actions
    }
}

/// Releases every cached name in order, appending one action per name.
fn push_name_actions(names: Vec<CachedName>, actions: &mut Vec<ReleaseAction>)
    ensures
        final(actions)@ == old(actions)@ + names@.map_values(
            |c: CachedName| c.spec_release_action(),
        ),
{
    let ghost orig = names@;
    let ghost base = actions@;
    let mut names = names;
    while names.len() > 0
        invariant
            actions@.len() >= base.len(),
            actions@.len() - base.len() + names@.len() == orig.len(),
            names@ == orig.skip(actions@.len() - base.len()),
            actions@ == base + orig.take(actions@.len() - base.len()).map_values(
                |c: CachedName| c.spec_release_action(),
            ),
        decreases names@.len(),
    {
        let ghost k = actions@.len() - base.len();
        proof {
            assert(names@[0] == orig[k]);
            assert(orig.skip(k).remove(0) =~= orig.skip(k + 1));
        }
        let c = names.remove(0);
        actions.push(c.release());
        proof {
            assert(base + orig.take(k + 1).map_values(|c: CachedName| c.spec_release_action())
                =~= (base + orig.take(k).map_values(|c: CachedName| c.spec_release_action())).push(
                orig[k].spec_release_action(),
            ));
        }
    }
    proof {
        assert(orig.take(orig.len() as int) =~= orig);
    }
}

/// The release actions a pending option-held handle contributes.
pub open spec fn opt_action(o: Option<Wrapper>) -> Seq<ReleaseAction> {
    match o {
        None => Seq::empty(),
        Some(w) => seq![w.spec_release_action()],
    }
}

/// The release actions a pending option-held name list contributes.
pub open spec fn opt_name_actions(o: Option<Vec<CachedName>>) -> Seq<ReleaseAction> {
    match o {
        None => Seq::empty(),
        Some(v) => v@.map_values(|c: CachedName| c.spec_release_action()),
    }
}

/// Collects the resources acquired while a session is being constructed.
///
/// Construction talks to the engine in stages: environment, session options,
/// native session, allocator, input names, output names.  The surrounding
/// code performs each engine call and deposits the result here; when every
/// stage is done, [`SessionBuilder::finish`] assembles the [`Session`].  If
/// any stage fails, [`SessionBuilder::fail`] turns the builder into the
/// release actions for everything acquired so far -- names included -- so
/// that a construction that fails part-way leaks nothing.
#[derive(Debug)]
pub struct SessionBuilder {
    env: Option<Wrapper>,
    opts: Option<Wrapper>,
    sess: Option<Wrapper>,
    allocator: Option<usize>,
    input_names: Option<Vec<CachedName>>,
    output_names: Option<Vec<CachedName>>,
}

impl SessionBuilder {
    /// The environment handle, once acquired.
    pub closed spec fn spec_env(&self) -> Option<Wrapper> {
        self.env
    }

    /// The session-options handle, once acquired.
    pub closed spec fn spec_opts(&self) -> Option<Wrapper> {
        self.opts
    }

    /// The native session handle, once acquired.
    pub closed spec fn spec_sess(&self) -> Option<Wrapper> {
        self.sess
    }

    /// The allocator pointer word, once queried.
    pub closed spec fn spec_allocator(&self) -> Option<usize> {
        self.allocator
    }

    /// The cached input names, once queried.
    pub closed spec fn spec_input_names(&self) -> Option<Vec<CachedName>> {
        self.input_names
    }

    /// The cached output names, once queried.
    pub closed spec fn spec_output_names(&self) -> Option<Vec<CachedName>> {
        self.output_names
    }

    /// Every acquired resource is live and of the stage's kind.
    pub open spec fn wf(&self) -> bool {
        &&& (self.spec_env() matches Some(w) ==> w.wf() && w.spec_kind() == ResourceKind::Env)
        &&& (self.spec_opts() matches Some(w) ==> w.wf() && w.spec_kind()
            == ResourceKind::SessionOptions)
        &&& (self.spec_sess() matches Some(w) ==> w.wf() && w.spec_kind()
            == ResourceKind::Session)
        &&& (self.spec_input_names() matches Some(v) ==> forall|i: int|
            0 <= i < v@.len() ==> (#[trigger] v@[i]).wf())
        &&& (self.spec_output_names() matches Some(v) ==> forall|i: int|
            0 <= i < v@.len() ==> (#[trigger] v@[i]).wf())
    }

    /// Starts a construction with nothing acquired.
    pub fn new() -> (r: Self)
        ensures
            r.spec_env() is None,
            r.spec_opts() is None,
            r.spec_sess() is None,
            r.spec_allocator() is None,
            r.spec_input_names() is None,
            r.spec_output_names() is None,
            r.wf(),
    {
        SessionBuilder {
            env: None,
            opts: None,
            sess: None,
            allocator: None,
            input_names: None,
            output_names: None,
        }
    }

    /// Deposits the environment handle.
    pub fn supply_env(&mut self, w: Wrapper)
        requires
            old(self).wf(),
            old(self).spec_env() is None,
            w.wf(),
            w.spec_kind() == ResourceKind::Env,
        ensures
            final(self).wf(),
            final(self).spec_env() == Some(w),
            final(self).spec_opts() == old(self).spec_opts(),
            final(self).spec_sess() == old(self).spec_sess(),
            final(self).spec_allocator() == old(self).spec_allocator(),
            final(self).spec_input_names() == old(self).spec_input_names(),
            final(self).spec_output_names() == old(self).spec_output_names(),
    {
        self.env = Some(w);
    }

    /// Deposits the session-options handle.
    pub fn supply_opts(&mut self, w: Wrapper)
        requires
            old(self).wf(),
            old(self).spec_opts() is None,
            w.wf(),
            w.spec_kind() == ResourceKind::SessionOptions,
        ensures
            final(self).wf(),
            final(self).spec_opts() == Some(w),
            final(self).spec_env() == old(self).spec_env(),
            final(self).spec_sess() == old(self).spec_sess(),
            final(self).spec_allocator() == old(self).spec_allocator(),
            final(self).spec_input_names() == old(self).spec_input_names(),
            final(self).spec_output_names() == old(self).spec_output_names(),
    {
        self.opts = Some(w);
    }

    /// Deposits the native session handle.
    pub fn supply_sess(&mut self, w: Wrapper)
        requires
            old(self).wf(),
            old(self).spec_sess() is None,
            w.wf(),
            w.spec_kind() == ResourceKind::Session,
        ensures
            final(self).wf(),
            final(self).spec_sess() == Some(w),
            final(self).spec_env() == old(self).spec_env(),
            final(self).spec_opts() == old(self).spec_opts(),
            final(self).spec_allocator() == old(self).spec_allocator(),
            final(self).spec_input_names() == old(self).spec_input_names(),
            final(self).spec_output_names() == old(self).spec_output_names(),
    {
        self.sess = Some(w);
    }

    /// Records the allocator pointer word (not owned; never released).
    pub fn supply_allocator(&mut self, a: usize)
        requires
            old(self).wf(),
            old(self).spec_allocator() is None,
        ensures
            final(self).wf(),
            final(self).spec_allocator() == Some(a),
            final(self).spec_env() == old(self).spec_env(),
            final(self).spec_opts() == old(self).spec_opts(),
            final(self).spec_sess() == old(self).spec_sess(),
            final(self).spec_input_names() == old(self).spec_input_names(),
            final(self).spec_output_names() == old(self).spec_output_names(),
    {
        self.allocator = Some(a);
    }

    /// Deposits the cached input names.
    pub fn supply_input_names(&mut self, names: Vec<CachedName>)
        requires
            old(self).wf(),
            old(self).spec_input_names() is None,
            forall|i: int| 0 <= i < names@.len() ==> (#[trigger] names@[i]).wf(),
        ensures
            final(self).wf(),
            final(self).spec_input_names() == Some(names),
            final(self).spec_env() == old(self).spec_env(),
            final(self).spec_opts() == old(self).spec_opts(),
            final(self).spec_sess() == old(self).spec_sess(),
            final(self).spec_allocator() == old(self).spec_allocator(),
            final(self).spec_output_names() == old(self).spec_output_names(),
    {
        self.input_names = Some(names);
    }

    /// Deposits the cached output names.
    pub fn supply_output_names(&mut self, names: Vec<CachedName>)
        requires
            old(self).wf(),
            old(self).spec_output_names() is None,
            forall|i: int| 0 <= i < names@.len() ==> (#[trigger] names@[i]).wf(),
        ensures
            final(self).wf(),
            final(self).spec_output_names() == Some(names),
            final(self).spec_env() == old(self).spec_env(),
            final(self).spec_opts() == old(self).spec_opts(),
            final(self).spec_sess() == old(self).spec_sess(),
            final(self).spec_allocator() == old(self).spec_allocator(),
            final(self).spec_input_names() == old(self).spec_input_names(),
    {
        self.output_names = Some(names);
    }

    /// The release actions for everything acquired so far: the cached names,
    /// then the native session, the session options and the environment.
    pub open spec fn spec_pending_actions(&self) -> Seq<ReleaseAction> {
        opt_name_actions(self.spec_input_names()) + opt_name_actions(self.spec_output_names())
            + opt_action(self.spec_sess()) + opt_action(self.spec_opts()) + opt_action(
            self.spec_env(),
        )
    }

    /// Abandons the construction after an engine failure: every resource
    /// acquired so far -- name buffers included -- yields exactly one
    /// release action, and the failure is wrapped as an engine error.
    pub fn fail(self, status: ErrorStatus) -> (r: (Vec<ReleaseAction>, Error))
        ensures
            r.0@ == self.spec_pending_actions(),
            r.1 == Error::Engine(status),
    {
        let SessionBuilder { env, opts, sess, allocator: _, input_names, output_names } = self;
        let mut actions: Vec<ReleaseAction> = Vec::new();
        if let Some(v) = input_names {
            push_name_actions(v, &mut actions);
        }
        if let Some(v) = output_names {
            push_name_actions(v, &mut actions);
        }
        if let Some(w) = sess {
            actions.push(w.release());
        }
        if let Some(w) = opts {
            actions.push(w.release());
        }
        if let Some(w) = env {
            actions.push(w.release());
        }
        proof {
            assert(actions@ =~= self.spec_pending_actions());
        }
        (actions, Error::Engine(status))
    }

    /// Completes the construction.  Consumes every acquired resource into
    /// the session, except the session options, which construction no longer
    /// needs: their one release action is handed back beside the session.
    pub fn finish(self) -> (r: (Session, Vec<ReleaseAction>))
        requires
            self.wf(),
            self.spec_env() is Some,
            self.spec_opts() is Some,
            self.spec_sess() is Some,
            self.spec_allocator() is Some,
            self.spec_input_names() is Some,
            self.spec_output_names() is Some,
        ensures
            r.0.wf(),
            r.0.spec_env() == self.spec_env().unwrap(),
            r.0.spec_sess() == self.spec_sess().unwrap(),
            r.0.spec_allocator() == self.spec_allocator().unwrap(),
            r.0.spec_input_names() == self.spec_input_names().unwrap()@,
            r.0.spec_output_names() == self.spec_output_names().unwrap()@,
            r.1@ == seq![self.spec_opts().unwrap().spec_release_action()],
    {
        let SessionBuilder { env, opts, sess, allocator, input_names, output_names } = self;
        let env = match env {
            Some(w) => w,
            None => vstd::pervasive::unreached(),
        };
        let opts = match opts {
            Some(w) => w,
            None => vstd::pervasive::unreached(),
        };
        let sess = match sess {
            Some(w) => w,
            None => vstd::pervasive::unreached(),
        };
        let allocator = match allocator {
            Some(a) => a,
            None => vstd::pervasive::unreached(),
        };
        let input_names = match input_names {
            Some(v) => v,
            None => vstd::pervasive::unreached(),
        };
        let output_names = match output_names {
            Some(v) => v,
            None => vstd::pervasive::unreached(),
        };
        let session = Session::new(env, sess, allocator, input_names, output_names);
        let mut actions: Vec<ReleaseAction> = Vec::new();
        actions.push(opts.release());
        (session, actions)
    }
}

/// Looks a name up in a decoded output mapping, returning the first value
/// paired with it and failing with a missing-output error when the name is
/// absent.
pub fn find_output<'a>(pairs: &'a Vec<(String, Value)>, name: &String) -> (r: Result<
    &'a Value,
    Error,
>)
    ensures
        (exists|j: int| 0 <= j < pairs@.len() && (#[trigger] pairs@[j]).0@ == name@) <==> r is Ok,
        r matches Ok(v) ==> exists|j: int|
            0 <= j < pairs@.len() && (#[trigger] pairs@[j]).0@ == name@ && *v == pairs@[j].1 && (
            forall|k: int| 0 <= k < j ==> (#[trigger] pairs@[k]).0@ != name@),
        r matches Err(e) ==> e == Error::MissingOutput(*name),
{
    let m = pairs.len();
    let mut j: usize = 0;
    while j < m
        invariant
            m == pairs@.len(),
            j <= m,
            forall|k: int| 0 <= k < j ==> (#[trigger] pairs@[k]).0@ != name@,
        decreases m - j,
    {
        if pairs[j].0 == *name {
            return Ok(&pairs[j].1);
        }
        j = j + 1;
    }
    Err(Error::MissingOutput(name.clone()))
}

/// The release actions freeing a metadata listing's buffers: each entry's
/// key buffer then its value buffer, in entry order.
pub open spec fn spec_metadata_actions(entries: Seq<(CachedName, CachedName)>) -> Seq<
    ReleaseAction,
>
    decreases entries.len(),
{
    if entries.len() == 0 {
        Seq::empty()
    } else {
        spec_metadata_actions(entries.drop_last()) + seq![
            entries.last().0.spec_release_action(),
            entries.last().1.spec_release_action(),
        ]
    }
}

proof fn lemma_metadata_actions_step(entries: Seq<(CachedName, CachedName)>, k: int)
    requires
        0 <= k < entries.len(),
    ensures
        spec_metadata_actions(entries.take(k + 1)) == spec_metadata_actions(entries.take(k))
            + seq![entries[k].0.spec_release_action(), entries[k].1.spec_release_action()],
{
    assert(entries.take(k + 1).drop_last() =~= entries.take(k));
    assert(entries.take(k + 1).last() == entries[k]);
}

/// Shared decoding for input and output info lists.
fn decode_infos(names: &Vec<CachedName>, raws: &Vec<RawTypeInfo>) -> (r: Result<
    Vec<(String, TypeInfo)>,
    Error,
>)
    ensures
        r is Ok <==> (raws@.len() == names@.len() && (forall|i: int|
            0 <= i < raws@.len() ==> raw_decodes_ok(#[trigger] raws@[i]))),
        r matches Ok(v) ==> v@.len() == raws@.len() && (forall|i: int|
            0 <= i < v@.len() ==> (#[trigger] v@[i]).0@ == names@[i].spec_text()
                && type_info_decodes(raws@[i], v@[i].1)),
        r matches Err(e) ==> (if raws@.len() != names@.len() {
            e matches Error::Validation(_)
        } else {
            exists|i: int|
                0 <= i < raws@.len() && !raw_decodes_ok(#[trigger] raws@[i]) && e == raw_decode_err(
                    raws@[i],
                ) && (forall|k: int| 0 <= k < i ==> raw_decodes_ok(#[trigger] raws@[k]))
        }),
{
    if raws.len() != names.len() {
        return Err(Error::new_validation(
            "one raw type record per cached name is required".to_owned(),
        ));
    }
    let n = names.len();
    let mut out: Vec<(String, TypeInfo)> = Vec::new();
    let mut i: usize = 0;
    while i < n
        invariant
            n == names@.len(),
            n == raws@.len(),
            i <= n,
            out@.len() == i,
            forall|j: int| 0 <= j < i ==> raw_decodes_ok(#[trigger] raws@[j]),
            forall|j: int|
                0 <= j < i ==> (#[trigger] out@[j]).0@ == names@[j].spec_text()
                    && type_info_decodes(raws@[j], out@[j].1),
        decreases n - i,
    {
        match TypeInfo::new(&raws[i]) {
            Ok(t) => {
                out.push((names[i].text.clone(), t));
            },
            Err(e) => {
                return Err(e);
            },
        }
        i = i + 1;
    }
    Ok(out)
}

} // verus!
