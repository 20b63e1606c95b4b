//! Metric lines in the text exposition format:
//! `name{label1="value1",label2="value2"} value`, one metric per line, the
//! braces left out where a metric has no labels.

use vstd::prelude::*;
use vstd::string::*;

verus! {

broadcast use vstd::string::group_string_axioms;

/// A metric line in the making: everything written so far, and whether a
/// label has been written for the metric at hand.
pub struct FormatterView {
    pub text: Seq<char>,
    pub has_labels: bool,
}

/// The text after the name of a metric is written.
pub open spec fn begun(text: Seq<char>, name: Seq<char>) -> FormatterView {
    FormatterView { text: text + name, has_labels: false }
}

/// The text after one label is written: the first label opens the brace,
/// each further one follows a comma. The value stands in quotes as it is.
pub open spec fn labelled(line: FormatterView, name: Seq<char>, value: Seq<char>) -> FormatterView {
    FormatterView {
        text: line.text + (if line.has_labels {
            seq![',']
        } else {
            seq!['{']
        }) + name + seq!['=', '"'] + value + seq!['"'],
        has_labels: true,
    }
}

/// The text after the value is written: the brace is closed where it was
/// opened, and the line ends.
pub open spec fn finished(line: FormatterView, value: Seq<char>) -> Seq<char> {
    line.text + (if line.has_labels {
        seq!['}', ' ']
    } else {
        seq![' ']
    }) + value + seq!['\n']
}

/// Whether `text` is what `value` displays: what `to_string` gives for it.
/// For a `str` that is the text itself.
pub open spec fn shown_as<T: std::fmt::Display + ?Sized>(value: &T, text: String) -> bool {
    to_string_from_display_ensures::<T>(value, text)
}

/// Texts to which metric lines can be added.
pub trait DisplayPrometheusExt: Sized {
    /// The text that stands there.
    spec fn written(&self) -> Seq<char>;

    /// Begins a metric line with the name of the metric.
    fn begin_metric(self, name: &str) -> (formatter: PrometheusFormatter)
        ensures
            formatter@ == begun(self.written(), name@),
    ;
}

/// Writes one metric line at the end of a text.
pub struct PrometheusFormatter {
    fmt: String,
    has_labels: bool,
}

impl View for PrometheusFormatter {
    type V = FormatterView;

    closed spec fn view(&self) -> FormatterView {
        FormatterView { text: self.fmt@, has_labels: self.has_labels }
    }
}

impl DisplayPrometheusExt for String {
    open spec fn written(&self) -> Seq<char> {
        self@
    }

    fn begin_metric(self, name: &str) -> (formatter: PrometheusFormatter) {
        PrometheusFormatter::new(self, name)
    }
}

impl PrometheusFormatter {
    /// Begins a metric line at the end of `fmt`.
    pub fn new(fmt: String, name: &str) -> (formatter: Self)
        ensures
            formatter@ == begun(fmt@, name@),
    {
        PrometheusFormatter { fmt: fmt.concat(name), has_labels: false }
    }

    /// Writes the label `name` with the text `value`.
    pub fn label_text(self, name: &str, value: &str) -> (formatter: Self)
        ensures
            formatter@ == labelled(self@, name@, value@),
    {
        proof {
            reveal_strlit(",");
            reveal_strlit("{");
            reveal_strlit("=\"");
            reveal_strlit("\"");
        }
        let PrometheusFormatter { fmt, has_labels } = self;
        let opened = fmt.concat(
            if has_labels {
                ","
            } else {
                "{"
            },
        );
        let formatter = PrometheusFormatter {
            fmt: opened.concat(name).concat("=\"").concat(value).concat("\""),
            has_labels: true,
        };
        assert(formatter@.text =~= labelled(self@, name@, value@).text);
        formatter
    }

    /// Writes the label `name` with what `value` displays.
    pub fn label<N, V>(self, name: &N, value: &V) -> (formatter: Self) where
        N: std::fmt::Display + ?Sized,
        V: std::fmt::Display + ?Sized,

        ensures
            exists|n: String, v: String|
                #![trigger shown_as(name, n), shown_as(value, v)]
                shown_as(name, n) && shown_as(value, v) && formatter@ == labelled(
                    self@,
                    n@,
                    v@,
                ),
    {
        let n = name.to_string();
        let v = value.to_string();
        assert(shown_as(name, n) && shown_as(value, v));
        self.label_text(n.as_str(), v.as_str())
    }

    /// Writes the label `name` where there is a value for it.
    pub fn label_opt<N, V>(self, name: &N, value: Option<&V>) -> (formatter: Self) where
        N: std::fmt::Display + ?Sized,
        V: std::fmt::Display + ?Sized,

        ensures
            value is None ==> formatter@ == self@,
            value matches Some(shown) ==> exists|n: String, v: String|
                #![trigger shown_as(name, n), shown_as(shown, v)]
                shown_as(name, n) && shown_as(shown, v) && formatter@ == labelled(
                    self@,
                    n@,
                    v@,
                ),
    {
        match value {
            Some(shown) => self.label(name, shown),
            None => self,
        }
    }

    /// Ends the line with the text `value` and gives the whole text back.
    pub fn value_text(self, value: &str) -> (text: String)
        ensures
            text@ == finished(self@, value@),
    {
        proof {
            reveal_strlit("} ");
            reveal_strlit(" ");
            reveal_strlit("\n");
        }
        let PrometheusFormatter { fmt, has_labels } = self;
        let closed = fmt.concat(
            if has_labels {
                "} "
            } else {
                " "
            },
        );
        let text = closed.concat(value).concat("\n");
        assert(text@ =~= finished(self@, value@));
        text
    }

    /// Ends the line with what `value` displays and gives the whole text
    /// back.
    pub fn value<T>(self, value: &T) -> (text: String) where T: std::fmt::Display + ?Sized
        ensures
            exists|v: String| #[trigger] shown_as(value, v) && text@ == finished(self@, v@),
    {
        let v = value.to_string();
        assert(shown_as(value, v));
        self.value_text(v.as_str())
    }
}

} // verus!
