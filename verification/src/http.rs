//! Where a request goes and the headers that it has.
use vstd::prelude::*;

verus! {

/// The address of a request and its headers, in order.
#[derive(Debug, Clone, PartialEq)]
pub struct HttpHead {
    pub url: String,
    pub headers: Vec<(String, String)>,
}

/// The address of a request and its headers, in order.
pub struct HttpHeadView {
    pub url: Seq<char>,
    pub headers: Seq<(Seq<char>, Seq<char>)>,
}

impl DeepView for HttpHead {
    type V = HttpHeadView;

    open spec fn deep_view(&self) -> HttpHeadView {
        HttpHeadView { url: self.url@, headers: self.headers.deep_view() }
    }
}

impl HttpHead {
    /// A request without headers.
    pub(crate) fn new(url: String) -> (r: HttpHead)
        ensures
            r.deep_view().url == url@,
            r.deep_view().headers == Seq::<(Seq<char>, Seq<char>)>::empty(),
    {
        HttpHead { url, headers: Vec::new() }
    }

    /// Adds a header behind the others.
    pub(crate) fn push(&mut self, name: &str, value: &str)
        ensures
            final(self).deep_view().url == old(self).deep_view().url,
            final(self).deep_view().headers == old(self).deep_view().headers.push(
                (name@, value@),
            ),
    {
        self.headers.push((name.to_string(), value.to_string()));
        assert(self.deep_view().headers =~= old(self).deep_view().headers.push((name@, value@)));
    }
}

} // verus!
