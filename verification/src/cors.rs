//! The cross-origin policy of the service and the header lines that state it.

use vstd::prelude::*;
use vstd::string::StringExecFns;
use crate::method::Method;
use crate::response::Header;
use crate::response::HeaderView;
use crate::response::header_line;
use crate::response::header_views;
use crate::text::decimal;
use crate::text::decimal_string;

verus! {

/// Which cross-origin requests the service accepts, and for how long a
/// browser may remember that.
#[derive(Clone, Debug, PartialEq, Eq)]
pub struct CorsPolicy {
    /// The origins that may call the service; `*` stands for any origin.
    pub allowed_origins: Vec<String>,
    /// The methods that a cross-origin request may use.
    pub allowed_methods: Vec<Method>,
    /// The number of seconds for which the answer to a preflight request may
    /// be cached.
    pub max_age: u32,
}

/// The mathematical value of a [`CorsPolicy`].
pub struct CorsPolicyView {
    pub allowed_origins: Seq<Seq<char>>,
    pub allowed_methods: Seq<Method>,
    pub max_age: u32,
}

impl View for CorsPolicy {
    type V = CorsPolicyView;

    open spec fn view(&self) -> CorsPolicyView {
        CorsPolicyView {
            allowed_origins: self.allowed_origins@.map_values(|origin: String| origin@),
            allowed_methods: self.allowed_methods@,
            max_age: self.max_age,
        }
    }
}

/// The items of a list written one after another with `, ` between them.
pub open spec fn joined(items: Seq<Seq<char>>) -> Seq<char>
    decreases items.len(),
{
    if items.len() == 0 {
        Seq::empty()
    } else if items.len() == 1 {
        items[0]
    } else {
        joined(items.drop_last()) + ", "@ + items.last()
    }
}

/// The names of the methods of a list, in order.
pub open spec fn method_names(methods: Seq<Method>) -> Seq<Seq<char>> {
    methods.map_values(|method: Method| method.name_spec())
}

/// The policy of the service: any origin, the methods GET, HEAD, POST and
/// OPTIONS, and a day of preflight caching.
pub open spec fn service_policy() -> CorsPolicyView {
    CorsPolicyView {
        allowed_origins: seq!["*"@],
        allowed_methods: seq![Method::Get, Method::Head, Method::Post, Method::Options],
        max_age: 86400,
    }
}

/// The header lines that state a policy: the allowed origins and the
/// allowed methods, each left out where its list is empty, and the caching
/// time in seconds.
pub open spec fn policy_headers(policy: CorsPolicyView) -> Seq<HeaderView> {
    let origins = if policy.allowed_origins.len() == 0 {
        Seq::<HeaderView>::empty()
    } else {
        seq![header_line("Access-Control-Allow-Origin"@, joined(policy.allowed_origins))]
    };
    let methods = if policy.allowed_methods.len() == 0 {
        Seq::<HeaderView>::empty()
    } else {
        seq![
            header_line("Access-Control-Allow-Methods"@, joined(method_names(policy.allowed_methods))),
        ]
    };
    origins + methods + seq![
        header_line("Access-Control-Max-Age"@, decimal(policy.max_age as nat)),
    ]
}

/// The header lines of the service's own policy, written out.
pub open spec fn service_headers() -> Seq<HeaderView> {
    seq![
        header_line("Access-Control-Allow-Origin"@, "*"@),
        header_line("Access-Control-Allow-Methods"@, "GET, HEAD, POST, OPTIONS"@),
        header_line("Access-Control-Max-Age"@, "86400"@),
    ]
}

/// Joining a list that has grown by one item appends the separator and the
/// item, unless the item is the first.
proof fn lemma_joined_push(items: Seq<Seq<char>>, item: Seq<char>)
    ensures
        joined(items.push(item)) == if items.len() == 0 {
            item
        } else {
            joined(items) + ", "@ + item
        },
{
    assert(items.push(item).drop_last() =~= items);
}

/// Writes the items of a list one after another with `, ` between them.
fn join(items: &Vec<String>) -> (text: String)
    ensures
        text@ == joined(items@.map_values(|item: String| item@)),
{
    let ghost views = items@.map_values(|item: String| item@);
    let mut text = String::new();
    let mut i: usize = 0;
    while i < items.len()
        invariant
            i <= items.len(),
            views == items@.map_values(|item: String| item@),
            text@ == joined(views.take(i as int)),
        decreases items.len() - i,
    {
        proof {
            lemma_joined_push(views.take(i as int), views[i as int]);
            assert(views.take(i as int).push(views[i as int]) =~= views.take(i + 1));
        }
        if i > 0 {
            text.append(", ");
        }
        text.append(items[i].as_str());
        i += 1;
    }
    assert(views.take(i as int) =~= views);
    text
}

/// The names of the methods of a list, in order.
fn names_of(methods: &Vec<Method>) -> (names: Vec<String>)
    ensures
        names@.map_values(|name: String| name@) == method_names(methods@),
{
    let mut names: Vec<String> = Vec::new();
    let mut i: usize = 0;
    while i < methods.len()
        invariant
            i <= methods.len(),
            names@.map_values(|name: String| name@) == method_names(methods@.take(i as int)),
        decreases methods.len() - i,
    {
        let ghost before = names@;
        let name = String::from_str(methods[i].name());
        names.push(name);
        proof {
            let taken = methods@.take(i as int);
            assert(methods@.take(i + 1) =~= taken.push(methods@[i as int]));
            assert(method_names(taken.push(methods@[i as int])) =~= method_names(taken).push(
                methods@[i as int].name_spec(),
            ));
            assert(before.push(name).map_values(|name: String| name@) =~= before.map_values(
                |name: String| name@,
            ).push(name@));
        }
        i += 1;
    }
    assert(methods@.take(i as int) =~= methods@);
    names
}

impl CorsPolicy {
    /// Builds the policy of the service.
    pub fn service() -> (policy: CorsPolicy)
        ensures
            policy@ == service_policy(),
    {
        let mut allowed_origins: Vec<String> = Vec::new();
        allowed_origins.push(String::from_str("*"));
        let mut allowed_methods: Vec<Method> = Vec::new();
        allowed_methods.push(Method::Get);
        allowed_methods.push(Method::Head);
        allowed_methods.push(Method::Post);
        allowed_methods.push(Method::Options);
        let policy = CorsPolicy { allowed_origins, allowed_methods, max_age: 86400 };
        assert(policy@.allowed_origins =~= seq!["*"@]);
        assert(policy@.allowed_methods =~= seq![
            Method::Get,
            Method::Head,
            Method::Post,
            Method::Options,
        ]);
        policy
    }

    /// The header lines that state the policy.
    pub fn headers(&self) -> (headers: Vec<Header>)
        ensures
            header_views(headers@) == policy_headers(self@),
            self@ == service_policy() ==> header_views(headers@) == service_headers(),
    {
        let mut headers: Vec<Header> = Vec::new();
        if self.allowed_origins.len() > 0 {
            headers.push(
                Header {
                    name: String::from_str("Access-Control-Allow-Origin"),
                    value: join(&self.allowed_origins),
                },
            );
        }
        if self.allowed_methods.len() > 0 {
            headers.push(
                Header {
                    name: String::from_str("Access-Control-Allow-Methods"),
                    value: join(&names_of(&self.allowed_methods)),
                },
            );
        }
        headers.push(
            Header {
                name: String::from_str("Access-Control-Max-Age"),
                value: decimal_string(self.max_age),
            },
        );
        assert(header_views(headers@) =~= policy_headers(self@));
        proof {
            lemma_service_headers();
        }
        headers
    }
}

/// The header lines of the service's policy are `Access-Control-Allow-Origin: *`,
/// `Access-Control-Allow-Methods: GET, HEAD, POST, OPTIONS` and
/// `Access-Control-Max-Age: 86400`.
pub proof fn lemma_service_headers()
    ensures
        policy_headers(service_policy()) == service_headers(),
{
    let origins = seq!["*"@];
    assert(joined(origins) == "*"@);

    let names = method_names(service_policy().allowed_methods);
    assert(names =~= seq!["GET"@, "HEAD"@, "POST"@, "OPTIONS"@]);
    let one = seq!["GET"@];
    let two = one.push("HEAD"@);
    let three = two.push("POST"@);
    let four = three.push("OPTIONS"@);
    lemma_joined_push(one, "HEAD"@);
    lemma_joined_push(two, "POST"@);
    lemma_joined_push(three, "OPTIONS"@);
    assert(joined(one) == "GET"@);
    assert(four =~= names);
    reveal_strlit("GET");
    reveal_strlit("HEAD");
    reveal_strlit("POST");
    reveal_strlit("OPTIONS");
    reveal_strlit(", ");
    reveal_strlit("GET, HEAD, POST, OPTIONS");
    assert(joined(names) =~= "GET, HEAD, POST, OPTIONS"@);

    assert(policy_headers(service_policy()) =~= seq![
        header_line("Access-Control-Allow-Origin"@, joined(origins)),
        header_line("Access-Control-Allow-Methods"@, joined(names)),
        header_line("Access-Control-Max-Age"@, decimal(86400)),
    ]);

    reveal_strlit("86400");
    assert(decimal(8) =~= seq!['8']);
    assert(decimal(86) =~= seq!['8', '6']);
    assert(decimal(864) =~= seq!['8', '6', '4']);
    assert(decimal(8640) =~= seq!['8', '6', '4', '0']);
    assert(decimal(86400) =~= seq!['8', '6', '4', '0', '0']);
    assert(decimal(86400) =~= "86400"@);
}

} // verus!
