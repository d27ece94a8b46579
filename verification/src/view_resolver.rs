use vstd::prelude::*;

use crate::text::texts_of;

verus! {

/// A binding pattern `name`, with its `ref` and `mut` keywords and
/// whether it has an `@` sub-pattern.
#[derive(Debug)]
pub struct PatIdentModel {
    pub name: String,
    pub by_ref: bool,
    pub mutable: bool,
    pub subpat: bool,
}

/// A pattern of a closure parameter.
#[derive(Debug)]
pub enum PatModel {
    Ident(PatIdentModel),
    Tuple(Vec<PatModel>),
    Wild,
    /// Any other pattern.
    Other,
}

/// Why the parameters of a view closure cannot be unwrapped.
#[derive(Debug, PartialEq, Eq)]
pub enum ViewResolveError {
    UnexpectedParamPatternType(String),
    UnexpectedCalculationParamCount(usize),
    RefIsInvalid,
    SubPatternIsInvalid,
    MutableIsInvalid,
    CannotUnwrap,
    NotTwoElementsTuple,
}

/// A refusal together with where it happened: the positions that lead
/// from the pattern being unwrapped to the sub-pattern that was refused
/// (for the parameters of a closure, the index of the parameter first;
/// none for the closure as a whole).
#[derive(Debug, PartialEq, Eq)]
pub struct LocatedViewResolveError {
    pub error: ViewResolveError,
    pub at: Vec<usize>,
}

/// A refusal and the positions of the refused sub-pattern.
pub type LocatedError = (ViewResolveError, Seq<usize>);

/// One binding of an unwrapped tuple: `let ident = __v.i.j...;`, with the
/// positions `i, j, ...` that lead from the tuple to the bound element.
#[derive(Debug)]
pub struct Unwrap {
    pub ident: String,
    pub path: Vec<usize>,
}

/// The second parameter of a view closure, unwrapped: the name it is
/// received under (none for `_`), the names it binds in order, and the
/// bindings that take a tuple apart.
#[derive(Debug)]
pub struct PreviousView {
    pub input: Option<String>,
    pub idents: Vec<String>,
    pub unwrap: Vec<Unwrap>,
}

/// Unwraps the parameters of view closures.
pub struct ViewResolver {}

/// The error of a binding pattern that cannot be a plain name, if any:
/// `ref` first, then a sub-pattern, then `mut`.
pub open spec fn ident_error(i: PatIdentModel) -> Option<ViewResolveError> {
    if i.by_ref {
        Some(ViewResolveError::RefIsInvalid)
    } else if i.subpat {
        Some(ViewResolveError::SubPatternIsInvalid)
    } else if i.mutable {
        Some(ViewResolveError::MutableIsInvalid)
    } else {
        None
    }
}

/// The names bound by an unwrapping and its bindings, each a name and the
/// positions leading to it.
pub type UnwrapView = (Seq<Seq<char>>, Seq<(Seq<char>, Seq<usize>)>);

/// Two unwrappings one after the other; the first error wins.
pub open spec fn combine_unwraps(
    a: Result<UnwrapView, LocatedError>,
    b: Result<UnwrapView, LocatedError>,
) -> Result<UnwrapView, LocatedError> {
    match a {
        Err(e) => Err(e),
        Ok((ia, ua)) => match b {
            Err(e) => Err(e),
            Ok((ib, ub)) => Ok((ia + ib, ua + ub)),
        },
    }
}

/// The unwrapping of a pair pattern reached by the positions `parent`:
/// a pattern with other than two elements is refused there, and the two
/// elements are unwrapped in order.
pub open spec fn tuple_unwrap(elems: Seq<PatModel>, parent: Seq<usize>) -> Result<
    UnwrapView,
    LocatedError,
>
    decreases elems,
{
    if elems.len() != 2 {
        Err((ViewResolveError::NotTwoElementsTuple, parent))
    } else {
        combine_unwraps(
            element_unwrap(elems[0], parent.push(0)),
            element_unwrap(elems[1], parent.push(1)),
        )
    }
}

/// The unwrapping of one element reached by the positions `path`: a name
/// binds itself there, a pair is unwrapped further, `_` binds nothing,
/// any other pattern is refused; a refusal is located at `path`.
pub open spec fn element_unwrap(p: PatModel, path: Seq<usize>) -> Result<
    UnwrapView,
    LocatedError,
>
    decreases p,
{
    match p {
        PatModel::Ident(i) => match ident_error(i) {
            Some(e) => Err((e, path)),
            None => Ok((seq![i.name@], seq![(i.name@, path)])),
        },
        PatModel::Tuple(es) => tuple_unwrap(es@, path),
        PatModel::Wild => Ok((Seq::empty(), Seq::empty())),
        PatModel::Other => Err((ViewResolveError::CannotUnwrap, path)),
    }
}

/// Whether `r` is the located refusal `e`.
pub open spec fn located_is(r: LocatedViewResolveError, e: LocatedError) -> bool {
    r.error == e.0 && r.at@ == e.1
}

/// The view of a list of bindings.
pub open spec fn unwraps_view(us: Seq<Unwrap>) -> Seq<(Seq<char>, Seq<usize>)> {
    us.map_values(|u: Unwrap| (u.ident@, u.path@))
}

/// Whether `r` is the unwrapping `s`.
pub open spec fn unwrap_result_is(
    r: Result<(Vec<String>, Vec<Unwrap>), LocatedViewResolveError>,
    s: Result<UnwrapView, LocatedError>,
) -> bool {
    match s {
        Err(e) => r matches Err(x) && located_is(x, e),
        Ok((ids, us)) => r matches Ok((ri, ru)) && texts_of(ri@) == ids && unwraps_view(ru@) == us,
    }
}

/// The name that the tuple parameter is received under.
pub open spec fn tuple_input_name() -> Seq<char> {
    "__v"@
}

/// Whether `r` is what unwrapping the pattern `p` of the second parameter
/// gives; a refusal is located by the positions inside `p`.
pub open spec fn previous_view_is(
    p: PatModel,
    r: Result<PreviousView, LocatedViewResolveError>,
) -> bool {
    match p {
        PatModel::Ident(i) => match ident_error(i) {
            Some(e) => r matches Err(x) && located_is(x, (e, Seq::empty())),
            None => r matches Ok(v) && v.input matches Some(n) && n@ == i.name@ && texts_of(
                v.idents@,
            ) == seq![i.name@] && v.unwrap@.len() == 0,
        },
        PatModel::Tuple(es) => match tuple_unwrap(es@, Seq::empty()) {
            Err(e) => r matches Err(x) && located_is(x, e),
            Ok((ids, us)) => r matches Ok(v) && v.input matches Some(n) && n@ == tuple_input_name()
                && texts_of(v.idents@) == ids && unwraps_view(v.unwrap@) == us,
        },
        PatModel::Wild => r matches Ok(v) && v.input is None && v.idents@.len() == 0
            && v.unwrap@.len() == 0,
        PatModel::Other => r matches Err(x) && located_is(
            x,
            (ViewResolveError::CannotUnwrap, Seq::empty()),
        ),
    }
}

/// The refusal, if any, of unwrapping the pattern `p` of the second
/// parameter, located by the positions inside `p`.
pub open spec fn pre_view_refusal(p: PatModel) -> Option<LocatedError> {
    match p {
        PatModel::Ident(i) => match ident_error(i) {
            Some(e) => Some((e, Seq::empty())),
            None => None,
        },
        PatModel::Tuple(es) => match tuple_unwrap(es@, Seq::empty()) {
            Err(e) => Some(e),
            Ok(_) => None,
        },
        PatModel::Wild => None,
        PatModel::Other => Some((ViewResolveError::CannotUnwrap, Seq::empty())),
    }
}

impl ViewResolver {
    /// The name bound by a binding pattern, which may carry no `ref`, no
    /// sub-pattern and no `mut`.
    pub fn unwrap_ident(ident: &PatIdentModel) -> (r: Result<String, ViewResolveError>)
        ensures
            ident_error(*ident) matches Some(e) ==> r == Err::<String, _>(e),
            ident_error(*ident) is None ==> (r matches Ok(n) && n@ == ident.name@),
    {
        if ident.by_ref {
            Err(ViewResolveError::RefIsInvalid)
        } else if ident.subpat {
            Err(ViewResolveError::SubPatternIsInvalid)
        } else if ident.mutable {
            Err(ViewResolveError::MutableIsInvalid)
        } else {
            Ok(ident.name.clone())
        }
    }

    /// The unwrapping of one element reached by the positions `path`.
    fn unwrap_element(p: &PatModel, path: Vec<usize>) -> (r: Result<
        (Vec<String>, Vec<Unwrap>),
        LocatedViewResolveError,
    >)
        ensures
            unwrap_result_is(r, element_unwrap(*p, path@)),
        decreases p,
    {
        match p {
            PatModel::Ident(i) => {
                let ident = match Self::unwrap_ident(i) {
                    Ok(n) => n,
                    Err(error) => {
                        return Err(LocatedViewResolveError { error, at: path });
                    },
                };
                let mut idents: Vec<String> = Vec::new();
                idents.push(ident.clone());
                let mut unwraps: Vec<Unwrap> = Vec::new();
                let ghost path_view = path@;
                unwraps.push(Unwrap { ident, path });
                assert(texts_of(idents@) =~= seq![i.name@]);
                assert(unwraps_view(unwraps@) =~= seq![(i.name@, path_view)]);
                Ok((idents, unwraps))
            },
            PatModel::Tuple(es) => Self::unwrap_tuple(es, path),
            PatModel::Wild => {
                let idents: Vec<String> = Vec::new();
                let unwraps: Vec<Unwrap> = Vec::new();
                assert(texts_of(idents@) =~= Seq::<Seq<char>>::empty());
                assert(unwraps_view(unwraps@) =~= Seq::<(Seq<char>, Seq<usize>)>::empty());
                Ok((idents, unwraps))
            },
            PatModel::Other => Err(
                LocatedViewResolveError { error: ViewResolveError::CannotUnwrap, at: path },
            ),
        }
    }

    /// The names bound by a pair pattern reached by the positions
    /// `parent`, and the bindings that take it apart.
    pub fn unwrap_tuple(tuple: &Vec<PatModel>, parent: Vec<usize>) -> (r: Result<
        (Vec<String>, Vec<Unwrap>),
        LocatedViewResolveError,
    >)
        ensures
            unwrap_result_is(r, tuple_unwrap(tuple@, parent@)),
        decreases tuple,
    {
        if tuple.len() != 2 {
            return Err(
                LocatedViewResolveError { error: ViewResolveError::NotTwoElementsTuple, at: parent },
            );
        }
        let ghost pv = parent@;
        let mut left_path = parent.clone();
        left_path.push(0);
        let mut right_path = parent;
        right_path.push(1);
        assert(left_path@ =~= pv.push(0));
        assert(right_path@ =~= pv.push(1));
        proof {
            assert(decreases_to!(*tuple => tuple@));
            assert(decreases_to!(tuple@ => tuple@[0]));
            assert(decreases_to!(tuple@ => tuple@[1]));
        }
        let (mut idents, mut unwraps) = Self::unwrap_element(&tuple[0], left_path)?;
        let (mut right_idents, mut right_unwraps) = Self::unwrap_element(&tuple[1], right_path)?;
        let ghost i0 = idents@;
        let ghost u0 = unwraps@;
        let ghost i1 = right_idents@;
        let ghost u1 = right_unwraps@;
        idents.append(&mut right_idents);
        unwraps.append(&mut right_unwraps);
        assert(texts_of(idents@) =~= texts_of(i0) + texts_of(i1));
        assert(unwraps_view(unwraps@) =~= unwraps_view(u0) + unwraps_view(u1));
        Ok((idents, unwraps))
    }

    /// The second parameter of a view closure, unwrapped: a name is
    /// received as itself, a pair is received as `__v` and taken apart,
    /// `_` is received unnamed, any other pattern is refused.
    pub fn unwrap_pre_view(pat: &PatModel) -> (r: Result<PreviousView, LocatedViewResolveError>)
        ensures
            previous_view_is(*pat, r),
            match r {
                Ok(_) => pre_view_refusal(*pat) is None,
                Err(x) => pre_view_refusal(*pat) == Some((x.error, x.at@)),
            },
    {
        match pat {
            PatModel::Ident(ident) => {
                let i = match Self::unwrap_ident(ident) {
                    Ok(n) => n,
                    Err(error) => {
                        return Err(LocatedViewResolveError { error, at: Vec::new() });
                    },
                };
                let mut idents: Vec<String> = Vec::new();
                idents.push(i.clone());
                assert(texts_of(idents@) =~= seq![ident.name@]);
                Ok(PreviousView { input: Some(i), idents, unwrap: Vec::new() })
            },
            PatModel::Tuple(tuple) => {
                let input = String::from_str("__v");
                let (idents, unwraps) = Self::unwrap_tuple(tuple, Vec::new())?;
                Ok(PreviousView { input: Some(input), idents, unwrap: unwraps })
            },
            PatModel::Wild => Ok(
                PreviousView { input: None, idents: Vec::new(), unwrap: Vec::new() },
            ),
            PatModel::Other => Err(
                LocatedViewResolveError { error: ViewResolveError::CannotUnwrap, at: Vec::new() },
            ),
        }
    }

    /// The parameters of a view closure: there must be two, the first a
    /// plain name; gives that name and the second parameter unwrapped.
    pub fn resolve_params(inputs: &Vec<PatModel>) -> (r: Result<
        (String, PreviousView),
        LocatedViewResolveError,
    >)
        ensures
            inputs@.len() != 2 ==> (r matches Err(x) && located_is(
                x,
                (
                    ViewResolveError::UnexpectedCalculationParamCount(inputs@.len() as usize),
                    Seq::empty(),
                ),
            )),
            inputs@.len() == 2 && !(inputs@[0] is Ident) ==> (r matches Err(x) && x.error matches
                ViewResolveError::UnexpectedParamPatternType(t) && t@ == "ident"@ && x.at@ == seq![
                0usize,
            ]),
            inputs@.len() == 2 ==> (inputs@[0] matches PatModel::Ident(i) ==> match ident_error(i) {
                Some(e) => r matches Err(x) && located_is(x, (e, seq![0usize])),
                None => match pre_view_refusal(inputs@[1]) {
                    Some((e, at)) => r matches Err(x) && located_is(x, (e, seq![1usize] + at)),
                    None => r matches Ok((first, v)) && first@ == i.name@ && previous_view_is(
                        inputs@[1],
                        Ok(v),
                    ),
                },
            }),
    {
        if inputs.len() != 2 {
            return Err(
                LocatedViewResolveError {
                    error: ViewResolveError::UnexpectedCalculationParamCount(inputs.len()),
                    at: Vec::new(),
                },
            );
        }
        let mut first_at: Vec<usize> = Vec::new();
        first_at.push(0);
        let first = match &inputs[0] {
            PatModel::Ident(ident) => match Self::unwrap_ident(ident) {
                Ok(n) => n,
                Err(error) => {
                    return Err(LocatedViewResolveError { error, at: first_at });
                },
            },
            _ => {
                return Err(
                    LocatedViewResolveError {
                        error: ViewResolveError::UnexpectedParamPatternType(
                            String::from_str("ident"),
                        ),
                        at: first_at,
                    },
                );
            },
        };
        match Self::unwrap_pre_view(&inputs[1]) {
            Ok(v) => Ok((first, v)),
            Err(x) => {
                let mut at: Vec<usize> = Vec::new();
                at.push(1);
                let mut inner = x.at;
                let ghost inner_view = inner@;
                at.append(&mut inner);
                assert(at@ =~= seq![1usize] + inner_view);
                Err(LocatedViewResolveError { error: x.error, at })
            },
        }
    }
}

} // verus!
