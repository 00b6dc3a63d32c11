//! Call names and the built-in construct catalog.
//!
//! A call in a parsed function body names a primitive operation, a
//! built-in control construct, or a user-defined function.  The variant
//! set is closed and matching on it is exhaustive.  Each built-in
//! construct has a fixed template and hand-authored documentation; the
//! type cast has a distinct snippet shape because its call syntax
//! differs from an ordinary call.

use vstd::prelude::*;
use vstd::string::StringExecFns;

use crate::chars::{chars_to_string, push_str_chars, str_eq};
use crate::template::{spec_snippet_name, views_of_strings, FunctionTemplate};

verus! {

/// The name of a call expression, with every payload rendered to text:
/// type annotations, function names, and bounds appear exactly as the
/// compiler would print them.
#[derive(Debug, Clone)]
pub enum CallKind {
    /// A primitive operation, by its bare name.
    Jet(String),
    /// Unwrap of the left variant, with the left type.
    UnwrapLeft(String),
    /// Unwrap of the right variant, with the right type.
    UnwrapRight(String),
    /// Unwrap of an optional value.
    Unwrap,
    /// Test of an optional value, with the element type.
    IsNone(String),
    /// Assertion.
    Assert,
    /// Unconditional failure.
    Panic,
    /// Debug print.
    Debug,
    /// Cast from the given source type.
    TypeCast(String),
    /// A user-defined function, by name.
    Custom(String),
    /// Fold of a bounded list: the step function and the rendered bound.
    Fold(String, String),
    /// Fold of a fixed-size array: the step function and the rendered
    /// size.
    ArrayFold(String, String),
    /// Bounded loop with early exit, with the body function.
    ForWhile(String),
}

impl PartialEq for CallKind {
    /// Two call names are equal when they are the same variant with
    /// equal payload text.
    fn eq(&self, other: &CallKind) -> (r: bool) {
        match (self, other) {
            (CallKind::Jet(a), CallKind::Jet(b)) => str_eq(a.as_str(), b.as_str()),
            (CallKind::UnwrapLeft(a), CallKind::UnwrapLeft(b)) => str_eq(a.as_str(), b.as_str()),
            (CallKind::UnwrapRight(a), CallKind::UnwrapRight(b)) => str_eq(a.as_str(), b.as_str()),
            (CallKind::Unwrap, CallKind::Unwrap) => true,
            (CallKind::IsNone(a), CallKind::IsNone(b)) => str_eq(a.as_str(), b.as_str()),
            (CallKind::Assert, CallKind::Assert) => true,
            (CallKind::Panic, CallKind::Panic) => true,
            (CallKind::Debug, CallKind::Debug) => true,
            (CallKind::TypeCast(a), CallKind::TypeCast(b)) => str_eq(a.as_str(), b.as_str()),
            (CallKind::Custom(a), CallKind::Custom(b)) => str_eq(a.as_str(), b.as_str()),
            (CallKind::Fold(a, n), CallKind::Fold(b, m)) => str_eq(a.as_str(), b.as_str())
                && str_eq(n.as_str(), m.as_str()),
            (CallKind::ArrayFold(a, n), CallKind::ArrayFold(b, m)) => str_eq(a.as_str(), b.as_str())
                && str_eq(n.as_str(), m.as_str()),
            (CallKind::ForWhile(a), CallKind::ForWhile(b)) => str_eq(a.as_str(), b.as_str()),
            _ => false,
        }
    }
}

impl vstd::std_specs::cmp::PartialEqSpecImpl for CallKind {
    open spec fn obeys_eq_spec() -> bool {
        true
    }

    open spec fn eq_spec(&self, other: &CallKind) -> bool {
        spec_call_kind_eq(*self, *other)
    }
}

/// Equality of call names: same variant, equal payload text.
pub open spec fn spec_call_kind_eq(a: CallKind, b: CallKind) -> bool {
    match (a, b) {
        (CallKind::Jet(x), CallKind::Jet(y)) => x@ == y@,
        (CallKind::UnwrapLeft(x), CallKind::UnwrapLeft(y)) => x@ == y@,
        (CallKind::UnwrapRight(x), CallKind::UnwrapRight(y)) => x@ == y@,
        (CallKind::Unwrap, CallKind::Unwrap) => true,
        (CallKind::IsNone(x), CallKind::IsNone(y)) => x@ == y@,
        (CallKind::Assert, CallKind::Assert) => true,
        (CallKind::Panic, CallKind::Panic) => true,
        (CallKind::Debug, CallKind::Debug) => true,
        (CallKind::TypeCast(x), CallKind::TypeCast(y)) => x@ == y@,
        (CallKind::Custom(x), CallKind::Custom(y)) => x@ == y@,
        (CallKind::Fold(x, n), CallKind::Fold(y, m)) => x@ == y@ && n@ == m@,
        (CallKind::ArrayFold(x, n), CallKind::ArrayFold(y, m)) => x@ == y@ && n@ == m@,
        (CallKind::ForWhile(x), CallKind::ForWhile(y)) => x@ == y@,
        _ => false,
    }
}

/// The rendered text of a call name, as the compiler prints it.
pub open spec fn spec_call_name(k: CallKind) -> Seq<char> {
    match k {
        CallKind::Jet(j) => "jet::"@ + j@,
        CallKind::UnwrapLeft(ty) => "unwrap_left::<"@ + ty@ + ">"@,
        CallKind::UnwrapRight(ty) => "unwrap_right::<"@ + ty@ + ">"@,
        CallKind::Unwrap => "unwrap"@,
        CallKind::IsNone(ty) => "is_none::<"@ + ty@ + ">"@,
        CallKind::Assert => "assert!"@,
        CallKind::Panic => "panic!"@,
        CallKind::Debug => "dbg!"@,
        CallKind::TypeCast(ty) => "<"@ + ty@ + ">::into"@,
        CallKind::Custom(name) => name@,
        CallKind::Fold(f, n) => "fold::<"@ + f@ + ", "@ + n@ + ">"@,
        CallKind::ArrayFold(f, n) => "array_fold::<"@ + f@ + ", "@ + n@ + ">"@,
        CallKind::ForWhile(f) => "for_while::<"@ + f@ + ">"@,
    }
}

/// Render a call name to text.
pub fn render_call_name(k: &CallKind) -> (r: String)
    ensures
        r@ == spec_call_name(*k),
{
    let mut v: Vec<char> = Vec::new();
    match k {
        CallKind::Jet(j) => {
            push_str_chars(&mut v, "jet::");
            push_str_chars(&mut v, j.as_str());
        },
        CallKind::UnwrapLeft(ty) => {
            push_str_chars(&mut v, "unwrap_left::<");
            push_str_chars(&mut v, ty.as_str());
            push_str_chars(&mut v, ">");
        },
        CallKind::UnwrapRight(ty) => {
            push_str_chars(&mut v, "unwrap_right::<");
            push_str_chars(&mut v, ty.as_str());
            push_str_chars(&mut v, ">");
        },
        CallKind::Unwrap => {
            push_str_chars(&mut v, "unwrap");
        },
        CallKind::IsNone(ty) => {
            push_str_chars(&mut v, "is_none::<");
            push_str_chars(&mut v, ty.as_str());
            push_str_chars(&mut v, ">");
        },
        CallKind::Assert => {
            push_str_chars(&mut v, "assert!");
        },
        CallKind::Panic => {
            push_str_chars(&mut v, "panic!");
        },
        CallKind::Debug => {
            push_str_chars(&mut v, "dbg!");
        },
        CallKind::TypeCast(ty) => {
            push_str_chars(&mut v, "<");
            push_str_chars(&mut v, ty.as_str());
            push_str_chars(&mut v, ">::into");
        },
        CallKind::Custom(name) => {
            push_str_chars(&mut v, name.as_str());
        },
        CallKind::Fold(f, n) => {
            push_str_chars(&mut v, "fold::<");
            push_str_chars(&mut v, f.as_str());
            push_str_chars(&mut v, ", ");
            push_str_chars(&mut v, n.as_str());
            push_str_chars(&mut v, ">");
        },
        CallKind::ArrayFold(f, n) => {
            push_str_chars(&mut v, "array_fold::<");
            push_str_chars(&mut v, f.as_str());
            push_str_chars(&mut v, ", ");
            push_str_chars(&mut v, n.as_str());
            push_str_chars(&mut v, ">");
        },
        CallKind::ForWhile(f) => {
            push_str_chars(&mut v, "for_while::<");
            push_str_chars(&mut v, f.as_str());
            push_str_chars(&mut v, ">");
        },
    }
    proof {
        assert(v@ =~= spec_call_name(*k));
    }
    chars_to_string(&v)
}

/// Documentation of the cast expression.
pub open spec fn spec_type_cast_doc() -> Seq<char> {
    "A SimplicityHL type can be cast into another SimplicityHL type if both types share the same structure.

## Casting Rules

- Type `A` can be cast into itself (reflexivity).

- If type `A` can be cast into type `B`, then type `B` can be cast into type `A` (symmetry).

- If type `A` can be cast into type `B` and type `B` can be cast into type `C`, then type `A` can be cast into type `C` (transitivity).

Below is a table of types that can be cast into each other.

| Type           | Casts To (And Back)                |
|----------------|------------------------------------|
| `bool`         | `Either<(), ()>`                   |
| `Option<A>`    | `Either<(), A>`                    |
| `u1`           | `bool`                             |
| `u2`           | `(u1, u1)`                         |
| `u4`           | `(u2, u2)`                         |
| `u8`           | `(u4, u4)`                         |
| `u16`          | `(u8, u8)`                         |
| `u32`          | `(u16, u16)`                       |
| `u64`          | `(u32, u32)`                       |
| `u128`         | `(u64, u64)`                       |
| `u256`         | `(u128, u128)`                     |
| `(A)`          | `A`                                |
| `(A, B, C)`    | `(A, (B, C))`                      |
| `(A, B, C, D)` | `((A, B), (C, D))`                 |
| ...            | ...                                |
| `[A; 0]`       | `()`                               |
| `[A; 1]`       | `A`                                |
| `[A; 2]`       | `(A, A)`                           |
| `[A; 3]`       | `(A, (A, A))`                      |
| `[A; 4]`       | `((A, A), (A, A))`                 |
| ...            | ...                                |
| `List<A, 2>`   | `Option<A>`                        |
| `List<A, 4>`   | `(Option<[A; 2]>, List<A, 2>)`     |
| `List<A, 8>`   | `(Option<[A; 4]>, List<A, 4>)`     |
| `List<A, 16>`  | `(Option<[A; 8]>, List<A, 8>)`     |
| `List<A, 32>`  | `(Option<[A; 16]>, List<A, 16>)`   |
| `List<A, 64>`  | `(Option<[A; 32]>, List<A, 32>)`   |
| `List<A, 128>` | `(Option<[A; 64]>, List<A, 64>)`   |
| `List<A, 256>` | `(Option<[A; 128]>, List<A, 128>)` |
| `List<A, 512>` | `(Option<[A; 256]>, List<A, 256>)` |
| ...            | ...                                |

## Casting Expression

All casting in SimplicityHL happens explicitly through a casting expression.

```simplicityhl
<Input>::into(input)
```

The above expression casts the value `input` of type `Input` into some output type.
The input type of the cast is explicit while the output type is implicit.
"@
}

/// Documentation shown for the cast expression.
pub fn type_casting_documentation() -> (r: &'static str)
    ensures
        r@ == spec_type_cast_doc(),
{
    "A SimplicityHL type can be cast into another SimplicityHL type if both types share the same structure.

## Casting Rules

- Type `A` can be cast into itself (reflexivity).

- If type `A` can be cast into type `B`, then type `B` can be cast into type `A` (symmetry).

- If type `A` can be cast into type `B` and type `B` can be cast into type `C`, then type `A` can be cast into type `C` (transitivity).

Below is a table of types that can be cast into each other.

| Type           | Casts To (And Back)                |
|----------------|------------------------------------|
| `bool`         | `Either<(), ()>`                   |
| `Option<A>`    | `Either<(), A>`                    |
| `u1`           | `bool`                             |
| `u2`           | `(u1, u1)`                         |
| `u4`           | `(u2, u2)`                         |
| `u8`           | `(u4, u4)`                         |
| `u16`          | `(u8, u8)`                         |
| `u32`          | `(u16, u16)`                       |
| `u64`          | `(u32, u32)`                       |
| `u128`         | `(u64, u64)`                       |
| `u256`         | `(u128, u128)`                     |
| `(A)`          | `A`                                |
| `(A, B, C)`    | `(A, (B, C))`                      |
| `(A, B, C, D)` | `((A, B), (C, D))`                 |
| ...            | ...                                |
| `[A; 0]`       | `()`                               |
| `[A; 1]`       | `A`                                |
| `[A; 2]`       | `(A, A)`                           |
| `[A; 3]`       | `(A, (A, A))`                      |
| `[A; 4]`       | `((A, A), (A, A))`                 |
| ...            | ...                                |
| `List<A, 2>`   | `Option<A>`                        |
| `List<A, 4>`   | `(Option<[A; 2]>, List<A, 2>)`     |
| `List<A, 8>`   | `(Option<[A; 4]>, List<A, 4>)`     |
| `List<A, 16>`  | `(Option<[A; 8]>, List<A, 8>)`     |
| `List<A, 32>`  | `(Option<[A; 16]>, List<A, 16>)`   |
| `List<A, 64>`  | `(Option<[A; 32]>, List<A, 32>)`   |
| `List<A, 128>` | `(Option<[A; 64]>, List<A, 64>)`   |
| `List<A, 256>` | `(Option<[A; 128]>, List<A, 128>)` |
| `List<A, 512>` | `(Option<[A; 256]>, List<A, 256>)` |
| ...            | ...                                |

## Casting Expression

All casting in SimplicityHL happens explicitly through a casting expression.

```simplicityhl
<Input>::into(input)
```

The above expression casts the value `input` of type `Input` into some output type.
The input type of the cast is explicit while the output type is implicit.
"
}

pub open spec fn spec_unwrap_left_doc() -> Seq<char> {
    "Extracts the left variant of an `Either` value.\n
Returns the left-side value if it exists, otherwise panics.\n
```simplicityhl
let x: Either<u8, u8> = Left(42);
let y: u8 = unwrap_left::<u8>(x); // 42
```"@
}

pub open spec fn spec_unwrap_right_doc() -> Seq<char> {
    "Extracts the right variant of an `Either` value.\n
Returns the right-side value if it exists, otherwise panics.\n
```simplicityhl
let x: Either<u8, u8> = Right(128);
let y: u8 = unwrap_right::<u8>(x); // 128
```"@
}

pub open spec fn spec_unwrap_doc() -> Seq<char> {
    "Unwraps an `Option` value, panicking if it is `None`.\n
```simplicityhl
let x: Option<u8> = Some(5);
let y: u8 = unwrap(x); // 5
```"@
}

pub open spec fn spec_is_none_doc() -> Seq<char> {
    "Checks if an `Option` is `None`.\n
Returns `true` if the value is `None`, otherwise `false`.
"@
}

pub open spec fn spec_assert_doc() -> Seq<char> {
    "Panics when `condition` is false."@
}

pub open spec fn spec_panic_doc() -> Seq<char> {
    "Unconditionally terminates program execution."@
}

pub open spec fn spec_debug_doc() -> Seq<char> {
    "Prints a value if debugging symbols is enabled and returns it unchanged. \n
```simplicityhl
let x: u32 = dbg!(42); // prints 42, returns 42
```"@
}

pub open spec fn spec_fold_doc() -> Seq<char> {
    "Fold a list of bounded length by repeatedly applying a function.\n
- Signature: `fold::<f, N>(list: List<E, N>, initial_accumulator: A) -> A`
- Fold step: `fn f(element: E, acc: A) -> A`
- Note: `N` is a power of two; lists hold fewer than `N` elements.\n
Example: sum a list of 32-bit integers.\n
```simplicityhl
fn sum(elt: u32, acc: u32) -> u32 {
    let (_, acc): (bool, u32) = jet::add_32(elt, acc);
    acc
}

fn main() {
    let xs: List<u32, 8> = list![1, 2, 3];
    let s: u32 = fold::<sum, 8>(xs, 0);
    assert!(jet::eq_32(s, 6));
}
```"@
}

pub open spec fn spec_array_fold_doc() -> Seq<char> {
    "Fold a fixed-size array by repeatedly applying a function.\n
- Signature: `array_fold::<f, N>(array: [E; N], initial_accumulator: A) -> A`
- Fold step: `fn f(element: E, acc: A) -> A`\n
Example: sum an array of 7 elements.\n
```simplicityhl
fn sum(elt: u32, acc: u32) -> u32 {
    let (_, acc): (bool, u32) = jet::add_32(elt, acc);
    acc
}

fn main() {
    let arr: [u32; 7] = [1, 2, 3, 4, 5, 6, 7];
    let sum: u32 = array_fold::<sum, 7>(arr, 0);
    assert!(jet::eq_32(sum, 28));
}
```"@
}

pub open spec fn spec_for_while_doc() -> Seq<char> {
    "Run a function `f` repeatedly with a bounded counter. The loop stops early when the function returns a successful value.\n
- Signature: `for_while::<f>(initial_accumulator: A, readonly_context: C) -> Either<B, A>`
- Loop body: `fn f(acc: A, ctx: C, counter: uN) -> Either<B, A>` where `N ∈ {1, 2, 4, 8, 16}`\n
Example: stop when `counter == 10`.\n
```simplicityhl
fn stop_at_10(acc: (), _: (), i: u8) -> Either<u8, ()> {
    match jet::eq_8(i, 10) {
        true => Left(i),   // success → exit loop
        false => Right(acc), // continue with same accumulator
    }
}

fn main() {
    let out: Either<u8, ()> = for_while::<stop_at_10>((), ());
    assert!(jet::eq_8(10, unwrap_left::<()>(out)));
}
```"@
}

/// Documentation of each built-in construct; primitive operations and
/// user-defined functions have none here.
pub open spec fn spec_builtin_doc(call: CallKind) -> Seq<char> {
    match call {
        CallKind::UnwrapLeft(_) => spec_unwrap_left_doc(),
        CallKind::UnwrapRight(_) => spec_unwrap_right_doc(),
        CallKind::Unwrap => spec_unwrap_doc(),
        CallKind::IsNone(_) => spec_is_none_doc(),
        CallKind::Assert => spec_assert_doc(),
        CallKind::Panic => spec_panic_doc(),
        CallKind::Debug => spec_debug_doc(),
        CallKind::Fold(_, _) => spec_fold_doc(),
        CallKind::ArrayFold(_, _) => spec_array_fold_doc(),
        CallKind::ForWhile(_) => spec_for_while_doc(),
        CallKind::TypeCast(_) => spec_type_cast_doc(),
        CallKind::Jet(_) | CallKind::Custom(_) => ""@,
    }
}

/// The hand-authored documentation of a built-in construct.
pub fn builtin_documentation(call: &CallKind) -> (r: String)
    ensures
        r@ == spec_builtin_doc(*call),
{
    match call {
        CallKind::UnwrapLeft(_) => String::from_str("Extracts the left variant of an `Either` value.\n
Returns the left-side value if it exists, otherwise panics.\n
```simplicityhl
let x: Either<u8, u8> = Left(42);
let y: u8 = unwrap_left::<u8>(x); // 42
```"),
        CallKind::UnwrapRight(_) => String::from_str("Extracts the right variant of an `Either` value.\n
Returns the right-side value if it exists, otherwise panics.\n
```simplicityhl
let x: Either<u8, u8> = Right(128);
let y: u8 = unwrap_right::<u8>(x); // 128
```"),
        CallKind::Unwrap => String::from_str("Unwraps an `Option` value, panicking if it is `None`.\n
```simplicityhl
let x: Option<u8> = Some(5);
let y: u8 = unwrap(x); // 5
```"),
        CallKind::IsNone(_) => String::from_str("Checks if an `Option` is `None`.\n
Returns `true` if the value is `None`, otherwise `false`.
"),
        CallKind::Assert => String::from_str("Panics when `condition` is false."),
        CallKind::Panic => String::from_str("Unconditionally terminates program execution."),
        CallKind::Debug => String::from_str("Prints a value if debugging symbols is enabled and returns it unchanged. \n
```simplicityhl
let x: u32 = dbg!(42); // prints 42, returns 42
```"),
        CallKind::Fold(_, _) => String::from_str("Fold a list of bounded length by repeatedly applying a function.\n
- Signature: `fold::<f, N>(list: List<E, N>, initial_accumulator: A) -> A`
- Fold step: `fn f(element: E, acc: A) -> A`
- Note: `N` is a power of two; lists hold fewer than `N` elements.\n
Example: sum a list of 32-bit integers.\n
```simplicityhl
fn sum(elt: u32, acc: u32) -> u32 {
    let (_, acc): (bool, u32) = jet::add_32(elt, acc);
    acc
}

fn main() {
    let xs: List<u32, 8> = list![1, 2, 3];
    let s: u32 = fold::<sum, 8>(xs, 0);
    assert!(jet::eq_32(s, 6));
}
```"),
        CallKind::ArrayFold(_, _) => String::from_str("Fold a fixed-size array by repeatedly applying a function.\n
- Signature: `array_fold::<f, N>(array: [E; N], initial_accumulator: A) -> A`
- Fold step: `fn f(element: E, acc: A) -> A`\n
Example: sum an array of 7 elements.\n
```simplicityhl
fn sum(elt: u32, acc: u32) -> u32 {
    let (_, acc): (bool, u32) = jet::add_32(elt, acc);
    acc
}

fn main() {
    let arr: [u32; 7] = [1, 2, 3, 4, 5, 6, 7];
    let sum: u32 = array_fold::<sum, 7>(arr, 0);
    assert!(jet::eq_32(sum, 28));
}
```"),
        CallKind::ForWhile(_) => String::from_str("Run a function `f` repeatedly with a bounded counter. The loop stops early when the function returns a successful value.\n
- Signature: `for_while::<f>(initial_accumulator: A, readonly_context: C) -> Either<B, A>`
- Loop body: `fn f(acc: A, ctx: C, counter: uN) -> Either<B, A>` where `N ∈ {1, 2, 4, 8, 16}`\n
Example: stop when `counter == 10`.\n
```simplicityhl
fn stop_at_10(acc: (), _: (), i: u8) -> Either<u8, ()> {
    match jet::eq_8(i, 10) {
        true => Left(i),   // success → exit loop
        false => Right(acc), // continue with same accumulator
    }
}

fn main() {
    let out: Either<u8, ()> = for_while::<stop_at_10>((), ());
    assert!(jet::eq_8(10, unwrap_left::<()>(out)));
}
```"),
        CallKind::TypeCast(_) => String::from_str(type_casting_documentation()),
        CallKind::Jet(_) | CallKind::Custom(_) => String::from_str(""),
    }
}


/// A single-element string vector.
fn vec1(s: String) -> (r: Vec<String>)
    ensures
        r@.len() == 1,
        views_of_strings(r@) == seq![s@],
{
    let mut r: Vec<String> = Vec::new();
    r.push(s);
    proof {
        assert(views_of_strings(r@) =~= seq![r@[0]@]);
    }
    r
}

/// A two-element string vector.
fn vec2(a: String, b: String) -> (r: Vec<String>)
    ensures
        r@.len() == 2,
        views_of_strings(r@) == seq![a@, b@],
{
    let mut r: Vec<String> = Vec::new();
    r.push(a);
    r.push(b);
    proof {
        assert(views_of_strings(r@) =~= seq![r@[0]@, r@[1]@]);
    }
    r
}

/// Concatenation of three string slices.
fn concat3(a: &str, b: &str, c: &str) -> (r: String)
    ensures
        r@ == a@ + b@ + c@,
{
    let mut v: Vec<char> = Vec::new();
    push_str_chars(&mut v, a);
    push_str_chars(&mut v, b);
    push_str_chars(&mut v, c);
    chars_to_string(&v)
}

/// The template of the left unwrap, for a left type rendered as `ty`.
pub open spec fn unwrap_left_template(ty: Seq<char>, t: FunctionTemplate) -> bool {
    &&& t.display_name@ == "unwrap_left"@
    &&& t.generics@.len() == 1
    &&& t.args@.len() == 1
    &&& views_of_strings(t.generics@) == seq![ty]
    &&& views_of_strings(t.args@) == seq!["Either<"@ + ty + ", U>"@]
    &&& t.return_type@ == ty
    &&& t.description@ == spec_unwrap_left_doc()
    &&& t.snippet@ == spec_snippet_name("unwrap_left"@, seq![ty])
}

/// The template of the right unwrap, for a right type rendered as `ty`.
pub open spec fn unwrap_right_template(ty: Seq<char>, t: FunctionTemplate) -> bool {
    &&& t.display_name@ == "unwrap_right"@
    &&& t.generics@.len() == 1
    &&& t.args@.len() == 1
    &&& views_of_strings(t.generics@) == seq![ty]
    &&& views_of_strings(t.args@) == seq!["Either<T, "@ + ty + ">"@]
    &&& t.return_type@ == ty
    &&& t.description@ == spec_unwrap_right_doc()
    &&& t.snippet@ == spec_snippet_name("unwrap_right"@, seq![ty])
}

/// The template of the option unwrap.
pub open spec fn unwrap_template(t: FunctionTemplate) -> bool {
    &&& t.display_name@ == "unwrap"@
    &&& t.generics@.len() == 0
    &&& t.args@.len() == 1
    &&& views_of_strings(t.args@) == seq!["Option<T>"@]
    &&& t.return_type@ == "T"@
    &&& t.description@ == spec_unwrap_doc()
    &&& t.snippet@ == "unwrap"@
}

/// The template of the option test, for an element type rendered as `ty`.
pub open spec fn is_none_template(ty: Seq<char>, t: FunctionTemplate) -> bool {
    &&& t.display_name@ == "is_none"@
    &&& t.generics@.len() == 1
    &&& t.args@.len() == 1
    &&& views_of_strings(t.generics@) == seq![ty]
    &&& views_of_strings(t.args@) == seq!["Option<"@ + ty + ">"@]
    &&& t.return_type@ == "bool"@
    &&& t.description@ == spec_is_none_doc()
    &&& t.snippet@ == spec_snippet_name("is_none"@, seq![ty])
}

/// The template of the assertion.
pub open spec fn assert_template(t: FunctionTemplate) -> bool {
    &&& t.display_name@ == "assert!"@
    &&& t.generics@.len() == 0
    &&& t.args@.len() == 1
    &&& views_of_strings(t.args@) == seq!["condition: bool"@]
    &&& t.return_type@ == "()"@
    &&& t.description@ == spec_assert_doc()
    &&& t.snippet@ == "assert!"@
}

/// The template of the unconditional failure.
pub open spec fn panic_template(t: FunctionTemplate) -> bool {
    &&& t.display_name@ == "panic!"@
    &&& t.generics@.len() == 0
    &&& t.args@.len() == 0
    &&& t.return_type@ == "()"@
    &&& t.description@ == spec_panic_doc()
    &&& t.snippet@ == "panic!"@
}

/// The template of the debug print.
pub open spec fn debug_template(t: FunctionTemplate) -> bool {
    &&& t.display_name@ == "dbg!"@
    &&& t.generics@.len() == 0
    &&& t.args@.len() == 1
    &&& views_of_strings(t.args@) == seq!["T"@]
    &&& t.return_type@ == "T"@
    &&& t.description@ == spec_debug_doc()
    &&& t.snippet@ == "dbg!"@
}

/// The template of the bounded-list fold.
pub open spec fn fold_template(t: FunctionTemplate) -> bool {
    &&& t.display_name@ == "fold"@
    &&& t.generics@.len() == 2
    &&& t.args@.len() == 2
    &&& views_of_strings(t.generics@) == seq!["f"@, "N"@]
    &&& views_of_strings(t.args@) == seq!["list: List<E,N>"@, "initial_accumulator: A"@]
    &&& t.return_type@ == "A"@
    &&& t.description@ == spec_fold_doc()
    &&& t.snippet@ == spec_snippet_name("fold"@, seq!["f"@, "N"@])
}

/// The template of the fixed-size-array fold.
pub open spec fn array_fold_template(t: FunctionTemplate) -> bool {
    &&& t.display_name@ == "array_fold"@
    &&& t.generics@.len() == 2
    &&& t.args@.len() == 2
    &&& views_of_strings(t.generics@) == seq!["f"@, "N"@]
    &&& views_of_strings(t.args@) == seq!["array: [E; N]"@, "initial_accumulator: A"@]
    &&& t.return_type@ == "A"@
    &&& t.description@ == spec_array_fold_doc()
    &&& t.snippet@ == spec_snippet_name("array_fold"@, seq!["f"@, "N"@])
}

/// The template of the bounded loop with early exit.
pub open spec fn for_while_template(t: FunctionTemplate) -> bool {
    &&& t.display_name@ == "for_while"@
    &&& t.generics@.len() == 1
    &&& t.args@.len() == 2
    &&& views_of_strings(t.generics@) == seq!["f"@]
    &&& views_of_strings(t.args@) == seq!["accumulator: A"@, "context: C"@]
    &&& t.return_type@ == "Either<B, A>"@
    &&& t.description@ == spec_for_while_doc()
    &&& t.snippet@ == spec_snippet_name("for_while"@, seq!["f"@])
}

/// The template of the type cast, whose snippet has its own shape
/// because the cast names its input type before the call.
pub open spec fn type_cast_template(t: FunctionTemplate) -> bool {
    &&& t.display_name@ == "into"@
    &&& t.generics@.len() == 1
    &&& t.args@.len() == 1
    &&& views_of_strings(t.generics@) == seq!["Input"@]
    &&& views_of_strings(t.args@) == seq!["input"@]
    &&& t.return_type@ == "Output"@
    &&& t.description@ == spec_type_cast_doc()
    &&& t.snippet@ == "<${1:Input}>::into"@
}

/// The template that each call name renders to; primitive operations and
/// user-defined functions have none here.
pub open spec fn spec_template_for(call: CallKind, t: FunctionTemplate) -> bool {
    match call {
        CallKind::UnwrapLeft(ty) => unwrap_left_template(ty@, t),
        CallKind::UnwrapRight(ty) => unwrap_right_template(ty@, t),
        CallKind::Unwrap => unwrap_template(t),
        CallKind::IsNone(ty) => is_none_template(ty@, t),
        CallKind::Assert => assert_template(t),
        CallKind::Panic => panic_template(t),
        CallKind::Debug => debug_template(t),
        CallKind::Fold(_, _) => fold_template(t),
        CallKind::ArrayFold(_, _) => array_fold_template(t),
        CallKind::ForWhile(_) => for_while_template(t),
        CallKind::TypeCast(_) => type_cast_template(t),
        CallKind::Jet(_) | CallKind::Custom(_) => false,
    }
}

/// The fixed template of a built-in construct, or nothing for a
/// primitive operation or a user-defined function.
pub fn match_callname(call: &CallKind) -> (r: Option<FunctionTemplate>)
    ensures
        match r {
            Some(t) => spec_template_for(*call, t),
            None => call is Jet || call is Custom,
        },
        r is None <==> (call is Jet || call is Custom),
{
    let doc = builtin_documentation(call);
    match call {
        CallKind::UnwrapLeft(ty) => {
            let t = FunctionTemplate::new(
                String::from_str("unwrap_left"),
                vec1(ty.clone()),
                vec1(concat3("Either<", ty.as_str(), ", U>")),
                ty.clone(),
                doc,
            );
            Some(t)
        },
        CallKind::UnwrapRight(ty) => {
            let t = FunctionTemplate::new(
                String::from_str("unwrap_right"),
                vec1(ty.clone()),
                vec1(concat3("Either<T, ", ty.as_str(), ">")),
                ty.clone(),
                doc,
            );
            Some(t)
        },
        CallKind::Unwrap => {
            let t = FunctionTemplate::simple(
                String::from_str("unwrap"),
                vec1(String::from_str("Option<T>")),
                String::from_str("T"),
                doc,
            );
            Some(t)
        },
        CallKind::IsNone(ty) => {
            let t = FunctionTemplate::new(
                String::from_str("is_none"),
                vec1(ty.clone()),
                vec1(concat3("Option<", ty.as_str(), ">")),
                String::from_str("bool"),
                doc,
            );
            Some(t)
        },
        CallKind::Assert => {
            let t = FunctionTemplate::simple(
                String::from_str("assert!"),
                vec1(String::from_str("condition: bool")),
                String::from_str("()"),
                doc,
            );
            Some(t)
        },
        CallKind::Panic => {
            let t = FunctionTemplate::simple(
                String::from_str("panic!"),
                Vec::new(),
                String::from_str("()"),
                doc,
            );
            Some(t)
        },
        CallKind::Debug => {
            let t = FunctionTemplate::simple(
                String::from_str("dbg!"),
                vec1(String::from_str("T")),
                String::from_str("T"),
                doc,
            );
            Some(t)
        },
        CallKind::Fold(_, _) => {
            let t = FunctionTemplate::new(
                String::from_str("fold"),
                vec2(String::from_str("f"), String::from_str("N")),
                vec2(
                    String::from_str("list: List<E,N>"),
                    String::from_str("initial_accumulator: A"),
                ),
                String::from_str("A"),
                doc,
            );
            Some(t)
        },
        CallKind::ArrayFold(_, _) => {
            let t = FunctionTemplate::new(
                String::from_str("array_fold"),
                vec2(String::from_str("f"), String::from_str("N")),
                vec2(
                    String::from_str("array: [E; N]"),
                    String::from_str("initial_accumulator: A"),
                ),
                String::from_str("A"),
                doc,
            );
            Some(t)
        },
        CallKind::ForWhile(_) => {
            let t = FunctionTemplate::new(
                String::from_str("for_while"),
                vec1(String::from_str("f")),
                vec2(String::from_str("accumulator: A"), String::from_str("context: C")),
                String::from_str("Either<B, A>"),
                doc,
            );
            Some(t)
        },
        CallKind::TypeCast(_) => {
            let t = FunctionTemplate {
                display_name: String::from_str("into"),
                generics: vec1(String::from_str("Input")),
                args: vec1(String::from_str("input")),
                return_type: String::from_str("Output"),
                description: doc,
                snippet: String::from_str("<${1:Input}>::into"),
            };
            Some(t)
        },
        CallKind::Jet(_) | CallKind::Custom(_) => None,
    }
}

/// The catalog of built-in constructs, in its fixed order.
pub fn get_builtin_functions() -> (r: Vec<FunctionTemplate>)
    ensures
        r@.len() == 11,
        unwrap_left_template("T"@, r@[0]),
        unwrap_right_template("T"@, r@[1]),
        unwrap_template(r@[2]),
        is_none_template("T"@, r@[3]),
        assert_template(r@[4]),
        debug_template(r@[5]),
        panic_template(r@[6]),
        fold_template(r@[7]),
        array_fold_template(r@[8]),
        for_while_template(r@[9]),
        type_cast_template(r@[10]),
{
    let mut r: Vec<FunctionTemplate> = Vec::new();
    push_template(&mut r, match_callname(&CallKind::UnwrapLeft(String::from_str("T"))));
    push_template(&mut r, match_callname(&CallKind::UnwrapRight(String::from_str("T"))));
    push_template(&mut r, match_callname(&CallKind::Unwrap));
    push_template(&mut r, match_callname(&CallKind::IsNone(String::from_str("T"))));
    push_template(&mut r, match_callname(&CallKind::Assert));
    push_template(&mut r, match_callname(&CallKind::Debug));
    push_template(&mut r, match_callname(&CallKind::Panic));
    push_template(
        &mut r,
        match_callname(&CallKind::Fold(String::from_str("fn"), String::from_str("2"))),
    );
    push_template(
        &mut r,
        match_callname(&CallKind::ArrayFold(String::from_str("fn"), String::from_str("1"))),
    );
    push_template(&mut r, match_callname(&CallKind::ForWhile(String::from_str("fn"))));
    push_template(&mut r, match_callname(&CallKind::TypeCast(String::from_str("T"))));
    r
}

fn push_template(dst: &mut Vec<FunctionTemplate>, t: Option<FunctionTemplate>)
    ensures
        match t {
            Some(tpl) => final(dst)@ == old(dst)@.push(tpl),
            None => final(dst)@ == old(dst)@,
        },
{
    match t {
        Some(tpl) => dst.push(tpl),
        None => {},
    }
}


/// Equal call names render to the same text.
pub proof fn lemma_call_name_like(a: CallKind, b: CallKind)
    requires
        spec_call_kind_eq(a, b),
    ensures
        spec_call_name(a) == spec_call_name(b),
{
}

/// Equal call names pick the same template.
pub proof fn lemma_template_for_like(a: CallKind, b: CallKind, t: FunctionTemplate)
    requires
        spec_call_kind_eq(a, b),
    ensures
        spec_template_for(a, t) == spec_template_for(b, t),
{
}

} // verus!
