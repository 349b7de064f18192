//! The wire text of commands: a JSON object `{"id"?, "method", "params"}`
//! whose identifier is left out, not written as null, when absent.
use vstd::prelude::*;
use crate::number::{
    decimal, integer_text, is_digit, lemma_decimal_value, lemma_integer_text_injective,
    parse_integer, write_decimal, write_integer, digit,
};
use crate::types::{ColorParams, EmptyParams, Method, Request, SceneParams, StateParams, scene_ordinal};

verus! {

/// The camelCase tag of a method on the wire.
pub open spec fn method_tag(m: Method) -> Seq<char> {
    match m {
        Method::GetState => "getState"@,
        Method::SetState => "setState"@,
        Method::GetPilot => "getPilot"@,
        Method::SetPilot => "setPilot"@,
    }
}

/// Parameters that have a JSON text on the wire.
pub trait WireParams: Sized {
    /// The JSON text of the parameters.
    spec fn wire(&self) -> Seq<char>;

    /// Appends the JSON text of the parameters to `out`.
    fn write_wire(&self, out: &mut String)
        ensures
            final(out)@ == old(out)@ + self.wire(),
    ;
}

/// The `"id":<n>,` member, or nothing when the identifier is absent.
pub open spec fn id_member(id: Option<i64>) -> Seq<char> {
    match id {
        Some(n) => "\"id\":"@ + integer_text(n as int) + ","@,
        None => Seq::empty(),
    }
}

/// The JSON text of a request: identifier (when present), method, params.
pub open spec fn request_text<T: WireParams>(r: &Request<T>) -> Seq<char> {
    "{"@ + id_member(r.id) + "\"method\":\""@ + method_tag(r.method) + "\",\"params\":"@
        + r.params.wire() + "}"@
}

impl Method {
    /// The method's tag on the wire.
    pub fn tag(&self) -> (r: &'static str)
        ensures
            r@ == method_tag(*self),
    {
        match self {
            Method::GetState => "getState",
            Method::SetState => "setState",
            Method::GetPilot => "getPilot",
            Method::SetPilot => "setPilot",
        }
    }
}

impl WireParams for StateParams {
    open spec fn wire(&self) -> Seq<char> {
        if self.state { "{\"state\":true}"@ } else { "{\"state\":false}"@ }
    }

    fn write_wire(&self, out: &mut String) {
        if self.state {
            out.append("{\"state\":true}");
        } else {
            out.append("{\"state\":false}");
        }
    }
}

impl WireParams for ColorParams {
    open spec fn wire(&self) -> Seq<char> {
        "{\"r\":"@ + decimal(self.red as nat) + ",\"g\":"@ + decimal(self.green as nat)
            + ",\"b\":"@ + decimal(self.blue as nat) + ",\"dimming\":"@
            + decimal(self.dimming as nat) + "}"@
    }

    fn write_wire(&self, out: &mut String) {
        let ghost start = out@;
        out.append("{\"r\":");
        write_decimal(out, self.red as u64);
        out.append(",\"g\":");
        write_decimal(out, self.green as u64);
        out.append(",\"b\":");
        write_decimal(out, self.blue as u64);
        out.append(",\"dimming\":");
        write_decimal(out, self.dimming as u64);
        out.append("}");
        assert(out@ =~= start + self.wire());
    }
}

impl WireParams for SceneParams {
    open spec fn wire(&self) -> Seq<char> {
        "{\"sceneId\":"@ + decimal(scene_ordinal(self.scene) as nat) + ",\"speed\":"@
            + decimal(self.speed as nat) + ",\"dimming\":"@ + decimal(self.dimming as nat)
            + "}"@
    }

    fn write_wire(&self, out: &mut String) {
        let ghost start = out@;
        out.append("{\"sceneId\":");
        write_decimal(out, self.scene.ordinal());
        out.append(",\"speed\":");
        write_decimal(out, self.speed as u64);
        out.append(",\"dimming\":");
        write_decimal(out, self.dimming as u64);
        out.append("}");
        assert(out@ =~= start + self.wire());
    }
}

impl WireParams for EmptyParams {
    open spec fn wire(&self) -> Seq<char> {
        "null"@
    }

    fn write_wire(&self, out: &mut String) {
        out.append("null");
    }
}

impl<T: WireParams> Request<T> {
    /// The JSON text of this request.
    pub fn encode(&self) -> (r: String)
        ensures
            r@ == request_text(self),
    {
        let mut out = String::new();
        out.append("{");
        if let Some(n) = self.id {
            out.append("\"id\":");
            write_integer(&mut out, n);
            out.append(",");
        }
        out.append("\"method\":\"");
        out.append(self.method.tag());
        out.append("\",\"params\":");
        self.params.write_wire(&mut out);
        out.append("}");
        assert(out@ =~= request_text(self));
        out
    }
}

/// Text equality with a request's wire text.
fn is_text_of(q: &Request<StateParams>, text: &String) -> (r: bool)
    ensures
        r == (request_text(q) == text@),
{
    q.encode() == *text
}

/// The method tags are pairwise distinct.
proof fn lemma_method_tag_injective(a: Method, b: Method)
    requires
        method_tag(a) == method_tag(b),
    ensures
        a == b,
{
    reveal_strlit("getState");
    reveal_strlit("setState");
    reveal_strlit("getPilot");
    reveal_strlit("setPilot");
    assert("getState"@[0] == 'g' && "getState"@[3] == 'S');
    assert("setState"@[0] == 's' && "setState"@[3] == 'S');
    assert("getPilot"@[0] == 'g' && "getPilot"@[3] == 'P');
    assert("setPilot"@[0] == 's' && "setPilot"@[3] == 'P');
    assert(method_tag(a)[0] == method_tag(b)[0]);
    assert(method_tag(a)[3] == method_tag(b)[3]);
}

/// A request without an identifier is written with no `"id"` member at all
/// (not even a null one): its text opens with the method member.
pub proof fn lemma_absent_id_omitted<T: WireParams>(r: &Request<T>)
    requires
        r.id.is_none(),
    ensures
        request_text(r) == "{\"method\":\""@ + method_tag(r.method) + "\",\"params\":"@
            + r.params.wire() + "}"@,
        request_text(r).subrange(0, 10) == "{\"method\":"@,
{
    reveal_strlit("{");
    reveal_strlit("\"method\":\"");
    reveal_strlit("{\"method\":\"");
    reveal_strlit("{\"method\":");
    assert(request_text(r) =~= "{\"method\":\""@ + method_tag(r.method) + "\",\"params\":"@
        + r.params.wire() + "}"@);
    assert(request_text(r).subrange(0, 10) =~= "{\"method\":"@);
}

/// A request with an identifier is written with the `"id"` member first.
pub proof fn lemma_present_id_first<T: WireParams>(r: &Request<T>, n: i64)
    requires
        r.id == Some(n),
    ensures
        request_text(r).subrange(0, 6 + integer_text(n as int).len() as int) == "{\"id\":"@ + integer_text(
            n as int,
        ),
{
    reveal_strlit("{");
    reveal_strlit("\"id\":");
    reveal_strlit("{\"id\":");
    assert(request_text(r).subrange(0, 6 + integer_text(n as int).len() as int) =~= "{\"id\":"@
        + integer_text(n as int));
}

/// The first `','` at or after `from`, or the end of `s`.
fn find_comma(s: &str, from: usize) -> (k: usize)
    requires
        from <= s@.len(),
    ensures
        from <= k <= s@.len(),
        forall|j: int| from <= j < k ==> s@[j] != ',',
        k < s@.len() ==> s@[k as int] == ',',
{
    let n = s.unicode_len();
    let mut k: usize = from;
    while k < n && s.get_char(k) != ','
        invariant
            from <= k <= n,
            n == s@.len(),
            forall|j: int| from <= j < k ==> s@[j] != ',',
        decreases n - k,
    {
        k = k + 1;
    }
    k
}

/// Where the parts of a request stand in its text.
proof fn lemma_layout<T: WireParams>(r: &Request<T>)
    ensures
        ({
            let o: int = 1 + id_member(r.id).len() as int;
            let t = request_text(r);
            &&& t.len() == o + 30 + r.params.wire().len()
            &&& t.subrange(o + 10, o + 18) == method_tag(r.method)
            &&& t.subrange(o + 29, t.len() - 1) == r.params.wire()
            &&& t.subrange(0, o) == "{"@ + id_member(r.id)
        }),
{
    reveal_strlit("{");
    reveal_strlit("\"method\":\"");
    reveal_strlit("\",\"params\":");
    reveal_strlit("}");
    reveal_strlit("getState");
    reveal_strlit("setState");
    reveal_strlit("getPilot");
    reveal_strlit("setPilot");
    let o: int = 1 + id_member(r.id).len() as int;
    let t = request_text(r);
    assert(method_tag(r.method).len() == 8);
    assert(t.subrange(o + 10, o + 18) =~= method_tag(r.method));
    assert(t.subrange(o + 29, t.len() - 1) =~= r.params.wire());
    assert(t.subrange(0, o) =~= "{"@ + id_member(r.id));
}

/// What the identifier member looks like at the start of a request's text.
proof fn lemma_id_prefix<T: WireParams>(r: &Request<T>)
    ensures
        ({
            let t = request_text(r);
            match r.id {
                Some(m) => {
                    let l: int = integer_text(m as int).len() as int;
                    &&& t.len() > 6 + l
                    &&& t.subrange(0, 6) == "{\"id\":"@
                    &&& t.subrange(6, 6 + l) == integer_text(m as int)
                    &&& t[6 + l] == ','
                    &&& forall|j: int| 6 <= j < 6 + l ==> t[j] != ','
                },
                None => t.len() > 6 && t[2] == 'm' && "{\"id\":"@[2] == 'i',
            }
        }),
{
    lemma_layout(r);
    reveal_strlit("{");
    reveal_strlit("\"id\":");
    reveal_strlit("{\"id\":");
    reveal_strlit(",");
    reveal_strlit("\"method\":\"");
    let t = request_text(r);
    match r.id {
        Some(m) => {
            let it = integer_text(m as int);
            let l: int = it.len() as int;
            assert(t.subrange(0, 6) =~= "{\"id\":"@);
            assert(t.subrange(6, 6 + l) =~= it);
            assert(t[6 + l] == ',');
            lemma_decimal_value(if m < 0 { (-m) as nat } else { m as nat });
            assert forall|j: int| 6 <= j < 6 + l implies t[j] != ',' by {
                assert(t[j] == it[j - 6]);
                if m < 0 && j == 6 {
                } else {
                    let c = t[j];
                    if m < 0 {
                        assert(c == decimal((-m) as nat)[j - 7]);
                    } else {
                        assert(c == decimal(m as nat)[j - 6]);
                    }
                    assert(is_digit(c));
                    let d = choose|d: nat| d < 10 && #[trigger] digit(d) == c;
                }
            }
        },
        None => {
            assert(t[2] == "\"method\":\""@[1]);
        },
    }
}

/// Two state requests with the same text are equal.
pub proof fn lemma_state_text_injective(a: Request<StateParams>, b: Request<StateParams>)
    requires
        request_text(&a) == request_text(&b),
    ensures
        a == b,
{
    lemma_id_prefix(&a);
    lemma_id_prefix(&b);
    let t = request_text(&a);
    match (a.id, b.id) {
        (Some(m1), Some(m2)) => {
            let l1: int = integer_text(m1 as int).len() as int;
            let l2: int = integer_text(m2 as int).len() as int;
            if l1 < l2 {
                assert(t[6 + l1] == ',');
            } else if l2 < l1 {
                assert(t[6 + l2] == ',');
            }
            lemma_integer_text_injective(m1, m2);
        },
        (None, Some(m2)) => {
            assert(t.subrange(0, 6)[2] == t[2]);
        },
        (Some(m1), None) => {
            assert(t.subrange(0, 6)[2] == t[2]);
        },
        (None, None) => {},
    }
    assert(a.id == b.id);
    lemma_layout(&a);
    lemma_layout(&b);
    lemma_method_tag_injective(a.method, b.method);
    reveal_strlit("{\"state\":true}");
    reveal_strlit("{\"state\":false}");
    assert(a.params.wire() == b.params.wire());
    assert(a.params.state == b.params.state);
}

/// The identifier of the request whose text is `text`; `None` when the text
/// opens with an identifier member that cannot be read.
fn read_id(text: &str) -> (r: Option<Option<i64>>)
    ensures
        forall|q: Request<StateParams>| #[trigger] request_text(&q) == text@ ==> r == Some(q.id),
{
    let n = text.unicode_len();
    if n > 6 {
        let head = String::from_str(text.substring_char(0, 6));
        if head == String::from_str("{\"id\":") {
            let k = find_comma(text, 6);
            let r = match parse_integer(text, 6, k) {
                Some(m) => Some(Some(m)),
                None => None,
            };
            proof {
                assert forall|q: Request<StateParams>| #[trigger] request_text(&q) == text@ implies r
                    == Some(q.id) by {
                    lemma_id_prefix(&q);
                    match q.id {
                        Some(m) => {
                            let l: int = integer_text(m as int).len() as int;
                            if k < 6 + l {
                                assert(text@[k as int] == ',');
                            }
                            if k > 6 + l {
                                assert(text@[6 + l] != ',');
                            }
                        },
                        None => {
                            assert(head@[2] == text@[2]);
                        },
                    }
                }
            }
            return r;
        }
        proof {
            assert forall|q: Request<StateParams>| #[trigger] request_text(&q) == text@ implies q.id
                is None by {
                lemma_id_prefix(&q);
            }
        }
        return Some(None);
    }
    proof {
        assert forall|q: Request<StateParams>| #[trigger] request_text(&q) == text@ implies false by {
            lemma_id_prefix(&q);
        }
    }
    Some(None)
}

/// Reads back a state request from its wire text: the result is the one
/// request whose text is `text`, or nothing when there is none.
pub fn decode_state_request(text: &str) -> (r: Option<Request<StateParams>>)
    ensures
        r matches Some(q) ==> request_text(&q) == text@,
        forall|q: Request<StateParams>|
            #[trigger] request_text(&q) == text@ ==> r == Some(q),
{
    let id = match read_id(text) {
        Some(id) => id,
        None => return None,
    };
    let t = String::from_str(text);
    let methods = [Method::GetState, Method::SetState, Method::GetPilot, Method::SetPilot];
    let mut i: usize = 0;
    while i < 4
        invariant
            t@ == text@,
            0 <= i <= 4,
            forall|q: Request<StateParams>| #[trigger] request_text(&q) == text@ ==> q.id == id,
            methods@ == seq![Method::GetState, Method::SetState, Method::GetPilot, Method::SetPilot],
            forall|q: Request<StateParams>|
                #[trigger] request_text(&q) == text@ ==> !methods@.take(i as int).contains(q.method),
        decreases 4 - i,
    {
        let on = Request { id, method: methods[i], params: StateParams { state: true } };
        if is_text_of(&on, &t) {
            proof {
                assert forall|q: Request<StateParams>|
                    #[trigger] request_text(&q) == text@ implies on == q by {
                    lemma_state_text_injective(on, q);
                }
            }
            return Some(on);
        }
        let off = Request { id, method: methods[i], params: StateParams { state: false } };
        if is_text_of(&off, &t) {
            proof {
                assert forall|q: Request<StateParams>|
                    #[trigger] request_text(&q) == text@ implies off == q by {
                    lemma_state_text_injective(off, q);
                }
            }
            return Some(off);
        }
        proof {
            assert forall|q: Request<StateParams>|
                #[trigger] request_text(&q) == text@ implies !methods@.take(i + 1).contains(q.method) by {
                if q.method == methods@[i as int] {
                    if q.params.state {
                        assert(q == on);
                    } else {
                        assert(q == off);
                    }
                }
                assert(!methods@.take(i as int).contains(q.method));
                assert(methods@.take(i + 1) =~= methods@.take(i as int).push(methods@[i as int]));
            }
        }
        i = i + 1;
    }
    proof {
        assert forall|q: Request<StateParams>|
            #[trigger] request_text(&q) == text@ implies false by {
            assert(methods@.take(4) =~= methods@);
            match q.method {
                Method::GetState => assert(methods@[0] == q.method),
                Method::SetState => assert(methods@[1] == q.method),
                Method::GetPilot => assert(methods@[2] == q.method),
                Method::SetPilot => assert(methods@[3] == q.method),
            }
        }
    }
    None
}

} // verus!
