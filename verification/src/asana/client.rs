use vstd::prelude::*;
use vstd::string::StringExecFns;

verus! {

/// The strings of `parts` one after the other, with `separator` between
/// each two.
pub open spec fn joined(parts: Seq<Seq<char>>, separator: Seq<char>) -> Seq<char>
    decreases parts.len(),
{
    if parts.len() == 0 {
        Seq::empty()
    } else if parts.len() == 1 {
        parts[0]
    } else {
        joined(parts.drop_last(), separator) + separator + parts.last()
    }
}

/// The field selection of a related model that a request includes: the
/// model's endpoint, a dot, and in round brackets its field names with bars
/// between them.
pub open spec fn opt_string_of(endpoint: Seq<char>, field_names: Seq<Seq<char>>) -> Seq<char> {
    endpoint + ".("@ + joined(field_names, "|"@) + ")"@
}

/// The path and query below the base URL: the relational prefix, the
/// model's endpoint and a slash, the GID if one is given, and the selection
/// of the model's own fields and of those of the related models.
pub open spec fn uri_of(
    relational: Seq<char>,
    endpoint: Seq<char>,
    gid: Option<Seq<char>>,
    field_names: Seq<Seq<char>>,
    opt_strings: Seq<Seq<char>>,
) -> Seq<char> {
    relational + endpoint + "/"@ + (match gid {
        Some(gid) => gid,
        None => Seq::empty(),
    }) + "?opt_fields="@ + "this.("@ + joined(field_names, "|"@) + "),"@ + joined(
        opt_strings,
        ","@,
    )
}

/// The relational prefix for the entities that belong to the entity
/// `relational_gid` of a model: the model's endpoint, a slash, the GID, a
/// slash.
pub open spec fn relational_of(endpoint: Seq<char>, relational_gid: Seq<char>) -> Seq<char> {
    endpoint + "/"@ + relational_gid + "/"@
}

/// What a [`Client`] holds, as mathematical values.
pub struct ClientView {
    pub access_token: Seq<char>,
    pub base_url: Seq<char>,
    pub endpoint: Seq<char>,
}

/// Prepares requests to Asana: where they go and how they are authorized.
pub struct Client {
    access_token: String,
    base_url: String,
    endpoint: String,
}

impl View for Client {
    type V = ClientView;

    closed spec fn view(&self) -> ClientView {
        ClientView {
            access_token: self.access_token@,
            base_url: self.base_url@,
            endpoint: self.endpoint@,
        }
    }
}

/// Joins the strings of `parts` with `separator` between each two.
pub fn join(parts: &Vec<String>, separator: &str) -> (res: String)
    ensures
        res@ == joined(parts.deep_view(), separator@),
{
    let mut res = String::new();
    let mut i: usize = 0;
    while i < parts.len()
        invariant
            i <= parts.len(),
            res@ == joined(parts.deep_view().take(i as int), separator@),
        decreases parts.len() - i,
    {
        proof {
            let all = parts.deep_view();
            assert(all.take(i + 1).drop_last() =~= all.take(i as int));
            assert(all.take(i + 1).last() == parts[i as int]@);
            if i == 0 {
                assert(res@ + parts[i as int]@ =~= parts[i as int]@);
            }
        }
        if i > 0 {
            res.append(separator);
        }
        res.append(parts[i].as_str());
        i += 1;
    }
    assert(parts.deep_view().take(parts.len() as int) =~= parts.deep_view());
    res
}

/// Returns the field selection of a related model for a request that
/// includes it.
pub fn opt_string(endpoint: &str, field_names: &Vec<String>) -> (res: String)
    ensures
        res@ == opt_string_of(endpoint@, field_names.deep_view()),
{
    let names = join(field_names, "|");
    String::from_str(endpoint).concat(".(").concat(names.as_str()).concat(")")
}

impl Client {
    /// Returns a new instance for the given access token and base URL.
    pub fn new(access_token: &str, base_url: &str) -> (res: Self)
        ensures
            res@ == (ClientView {
                access_token: access_token@,
                base_url: base_url@,
                endpoint: Seq::empty(),
            }),
    {
        Client {
            access_token: String::from_str(access_token),
            base_url: String::from_str(base_url),
            endpoint: String::new(),
        }
    }

    /// Prepare endpoint for relational model data: the next request is for
    /// what belongs to the entity `relational_gid` of the model at
    /// `endpoint`.
    pub fn from(&mut self, endpoint: &str, relational_gid: &str) -> (ret: &mut Client)
        ensures
            ret@ == (ClientView {
                endpoint: relational_of(endpoint@, relational_gid@),
                ..old(self)@
            }),
            *final(self) == *final(ret),
    {
        self.endpoint = String::from_str(endpoint).concat("/").concat(relational_gid).concat("/");
        self
    }

    /// Returns the URL of the request for the model at `endpoint`, for the
    /// entity `gid` or for all entities, with the inclusions of the model's
    /// fields and of its related models as query parameter. The relational
    /// prefix is used up by the request.
    pub fn request_url(
        &mut self,
        endpoint: &str,
        gid: Option<&str>,
        field_names: &Vec<String>,
        opt_strings: &Vec<String>,
    ) -> (res: String)
        ensures
            res@ == old(self)@.base_url + "/"@ + uri_of(
                old(self)@.endpoint,
                endpoint@,
                match gid {
                    Some(gid) => Some(gid@),
                    None => None,
                },
                field_names.deep_view(),
                opt_strings.deep_view(),
            ),
            final(self)@ == (ClientView { endpoint: Seq::empty(), ..old(self)@ }),
    {
        // Add both relational and main endpoints, and entity gid if supplied
        let uri = self.endpoint.clone().concat(endpoint).concat("/");
        let uri = uri.concat(
            match gid {
                Some(gid) => gid,
                None => "",
            },
        );
        proof {
            reveal_strlit("");
            assert(""@ =~= Seq::<char>::empty());
        }

        // Clear relational endpoint state
        self.endpoint = String::new();

        // Add relational and root field inclusions as query parameters
        let fields = join(field_names, "|");
        let includes = join(opt_strings, ",");
        let uri = uri.concat("?opt_fields=").concat("this.(").concat(fields.as_str()).concat(
            "),",
        ).concat(includes.as_str());
        let url = self.base_url.clone().concat("/").concat(uri.as_str());
        proof {
            let expected = old(self)@.base_url + "/"@ + uri_of(
                old(self)@.endpoint,
                endpoint@,
                match gid {
                    Some(gid) => Some(gid@),
                    None => None,
                },
                field_names.deep_view(),
                opt_strings.deep_view(),
            );
            assert(url@ =~= expected);
        }
        url
    }

    /// Returns the value of the header that authorizes a request.
    pub fn authorization(&self) -> (res: String)
        ensures
            res@ == "Bearer "@ + self@.access_token,
    {
        String::from_str("Bearer ").concat(self.access_token.as_str())
    }
}

} // verus!
