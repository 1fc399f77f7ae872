use vstd::prelude::*;

use crate::smalltalk::expression::{dot_joined, SmalltalkExpression, SmalltalkExpressionBuilder};
use crate::strutil::{dec_of, u64_to_dec};

verus! {

/// The expression that opens the default world.
pub const DEFAULT_APPLICATION_STARTER: &'static str = "GtWorld openDefault";

/// How long a started application is given to settle, in milliseconds.
pub const DEFAULT_START_DELAY_MILLIS: u64 = 5000;

/// How a start behaves: the starting expression, and how long to wait
/// before saving and closing.
#[derive(Clone, Debug)]
pub struct StartOptions {
    delay_millis: u64,
    expression: String,
}

impl StartOptions {
    pub closed spec fn delay_millis_spec(&self) -> u64 {
        self.delay_millis
    }

    pub closed spec fn expression_view(&self) -> Seq<char> {
        self.expression@
    }

    pub fn new(delay_millis: u64, expression: &str) -> (r: StartOptions)
        ensures
            r.delay_millis_spec() == delay_millis,
            r.expression_view() == expression@,
    {
        StartOptions { delay_millis, expression: expression.to_owned() }
    }

    pub fn delay_millis(&self) -> (r: u64)
        ensures
            r == self.delay_millis_spec(),
    {
        self.delay_millis
    }

    pub fn expression(&self) -> (r: &str)
        ensures
            r@ == self.expression_view(),
    {
        self.expression.as_str()
    }
}

impl Default for StartOptions {
    /// Five seconds of settling, opening the default world.
    fn default() -> (r: StartOptions)
        ensures
            r.delay_millis_spec() == DEFAULT_START_DELAY_MILLIS,
            r.expression_view() == DEFAULT_APPLICATION_STARTER@,
    {
        StartOptions {
            delay_millis: DEFAULT_START_DELAY_MILLIS,
            expression: DEFAULT_APPLICATION_STARTER.to_owned(),
        }
    }
}

/// Starts the application interactively, lets it settle, then snapshots
/// and quits.
pub struct Starter;

impl Starter {
    pub fn new() -> (r: Starter) {
        Starter {  }
    }

    /// The one chained expression a start evaluates: the starting
    /// expression, the settling wait, a record of the opened world, and
    /// the closing snapshot.
    pub fn start_expression(&self, start_options: &StartOptions) -> (r: SmalltalkExpression)
        ensures
            r.expression_view() == dot_joined(
                seq![
                    start_options.expression_view(),
                    dec_of(start_options.delay_millis_spec() as nat) + " milliSeconds wait"@,
                    "GtSpaceTallyHistory recordDefaultSystemWideDataLabeled: 'Open Default GtWorld End'"@,
                    "BlHost pickHost universe snapshot: true andQuit: true"@,
                ],
            ),
    {
        let mut wait = u64_to_dec(start_options.delay_millis());
        wait.append(" milliSeconds wait");
        let mut builder = SmalltalkExpressionBuilder::new();
        builder.add(start_options.expression());
        builder.add(wait.as_str());
        builder.add(
            "GtSpaceTallyHistory recordDefaultSystemWideDataLabeled: 'Open Default GtWorld End'",
        );
        builder.add("BlHost pickHost universe snapshot: true andQuit: true");
        let r = builder.build();
        proof {
            assert(builder.expressions_view() =~= seq![
                start_options.expression_view(),
                dec_of(start_options.delay_millis_spec() as nat) + " milliSeconds wait"@,
                "GtSpaceTallyHistory recordDefaultSystemWideDataLabeled: 'Open Default GtWorld End'"@,
                "BlHost pickHost universe snapshot: true andQuit: true"@,
            ]);
        }
        r
    }
}

} // verus!
