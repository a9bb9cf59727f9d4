//! Directives of the engine on single tests: which tests are known, which
//! can be skipped, and which are under test management.
//!
//! Each directive arrives as a run of records and is handed on grouped by
//! name, as [`crate::grouping`] describes. A fetch that was never made, or
//! that came back with an array with a null pointer or with another answer,
//! reads as no directive at all.

use crate::boundary::Reply;
use crate::grouping::group;
use crate::grouping::grouping;
use crate::grouping::inner_names;
use crate::grouping::items;
use crate::grouping::outer_names;
use crate::grouping::views;
use crate::grouping::Duplicate;
use crate::grouping::Entry;
use crate::grouping::Group;
use crate::grouping::GroupView;
use crate::text::inbound_text;
use crate::text::text_from_wire;
use crate::wire::bool_from_wire;
use crate::wire::flag_is_set;
use crate::wire::KnownTestRecord;
use crate::wire::SkippableTestRecord;
use crate::wire::TestPropertiesRecord;
use vstd::prelude::*;

verus! {

/// A test that can be skipped.
#[derive(Debug, Clone, PartialEq, Eq)]
pub struct SkippableTest {
    pub suite_name: String,
    pub test_name: String,
    pub parameters: String,
    pub custom_configurations_json: String,
}

/// A [`SkippableTest`] with its texts seen as characters.
pub struct SkippableTestView {
    pub suite_name: Seq<char>,
    pub test_name: Seq<char>,
    pub parameters: Seq<char>,
    pub custom_configurations_json: Seq<char>,
}

impl View for SkippableTest {
    type V = SkippableTestView;

    open spec fn view(&self) -> SkippableTestView {
        SkippableTestView {
            suite_name: self.suite_name@,
            test_name: self.test_name@,
            parameters: self.parameters@,
            custom_configurations_json: self.custom_configurations_json@,
        }
    }
}

impl Duplicate for SkippableTest {
    fn duplicate(&self) -> (copy: SkippableTest) {
        SkippableTest {
            suite_name: self.suite_name.clone(),
            test_name: self.test_name.clone(),
            parameters: self.parameters.clone(),
            custom_configurations_json: self.custom_configurations_json.clone(),
        }
    }
}

/// The management properties of a test.
#[derive(Debug, Clone, PartialEq, Eq)]
pub struct TestManagementTest {
    pub module_name: String,
    pub suite_name: String,
    pub test_name: String,
    pub quarantined: bool,
    pub disabled: bool,
    pub attempt_to_fix: bool,
}

/// A [`TestManagementTest`] with its texts seen as characters.
pub struct TestManagementTestView {
    pub module_name: Seq<char>,
    pub suite_name: Seq<char>,
    pub test_name: Seq<char>,
    pub quarantined: bool,
    pub disabled: bool,
    pub attempt_to_fix: bool,
}

impl View for TestManagementTest {
    type V = TestManagementTestView;

    open spec fn view(&self) -> TestManagementTestView {
        TestManagementTestView {
            module_name: self.module_name@,
            suite_name: self.suite_name@,
            test_name: self.test_name@,
            quarantined: self.quarantined,
            disabled: self.disabled,
            attempt_to_fix: self.attempt_to_fix,
        }
    }
}

impl Duplicate for TestManagementTest {
    fn duplicate(&self) -> (copy: TestManagementTest) {
        TestManagementTest {
            module_name: self.module_name.clone(),
            suite_name: self.suite_name.clone(),
            test_name: self.test_name.clone(),
            quarantined: self.quarantined,
            disabled: self.disabled,
            attempt_to_fix: self.attempt_to_fix,
        }
    }
}

/// The module names of a run of known tests.
pub open spec fn known_module_names(records: Seq<KnownTestRecord>) -> Seq<Seq<char>> {
    records.map_values(|r: KnownTestRecord| inbound_text(r.module_name))
}

/// The suite names of a run of known tests.
pub open spec fn known_suite_names(records: Seq<KnownTestRecord>) -> Seq<Seq<char>> {
    records.map_values(|r: KnownTestRecord| inbound_text(r.suite_name))
}

/// The test names of a run of known tests.
pub open spec fn known_test_names(records: Seq<KnownTestRecord>) -> Seq<Seq<char>> {
    records.map_values(|r: KnownTestRecord| inbound_text(r.test_name))
}

/// The known tests that a run of records stands for: the test names, by
/// module and then by suite.
pub open spec fn known_tests_of(records: Seq<KnownTestRecord>) -> Seq<
    GroupView<GroupView<Seq<char>>>,
> {
    grouping(known_test_names(records), known_module_names(records), known_suite_names(records))
}

/// The known tests that an answer stands for.
pub open spec fn known_tests_of_reply(reply: Reply) -> Seq<GroupView<GroupView<Seq<char>>>> {
    match reply {
        Reply::KnownTests(Some(records)) => known_tests_of(records@),
        _ => Seq::empty(),
    }
}

/// The skippable test that a record stands for.
pub open spec fn skippable_test_of(record: SkippableTestRecord) -> SkippableTestView {
    SkippableTestView {
        suite_name: inbound_text(record.suite_name),
        test_name: inbound_text(record.test_name),
        parameters: inbound_text(record.parameters),
        custom_configurations_json: inbound_text(record.custom_configurations_json),
    }
}

/// The skippable tests that a run of records stands for: the tests, by
/// suite and then by test name.
pub open spec fn skippable_tests_of(records: Seq<SkippableTestRecord>) -> Seq<
    GroupView<GroupView<SkippableTestView>>,
> {
    grouping(
        records.map_values(|r: SkippableTestRecord| skippable_test_of(r)),
        records.map_values(|r: SkippableTestRecord| inbound_text(r.suite_name)),
        records.map_values(|r: SkippableTestRecord| inbound_text(r.test_name)),
    )
}

/// The skippable tests that an answer stands for.
pub open spec fn skippable_tests_of_reply(reply: Reply) -> Seq<
    GroupView<GroupView<SkippableTestView>>,
> {
    match reply {
        Reply::SkippableTests(Some(records)) => skippable_tests_of(records@),
        _ => Seq::empty(),
    }
}

/// The managed test that a record stands for.
pub open spec fn managed_test_of(record: TestPropertiesRecord) -> TestManagementTestView {
    TestManagementTestView {
        module_name: inbound_text(record.module_name),
        suite_name: inbound_text(record.suite_name),
        test_name: inbound_text(record.test_name),
        quarantined: flag_is_set(record.quarantined),
        disabled: flag_is_set(record.disabled),
        attempt_to_fix: flag_is_set(record.attempt_to_fix),
    }
}

/// Whether two managed tests are the same test: of one module, one suite
/// and one name.
pub open spec fn same_test(a: TestManagementTestView, b: TestManagementTestView) -> bool {
    a.module_name == b.module_name && a.suite_name == b.suite_name && a.test_name == b.test_name
}

/// Whether a test is among the tests, whatever its properties there.
pub open spec fn has_test(tests: Seq<TestManagementTestView>, test: TestManagementTestView) -> bool {
    exists|j: int| 0 <= j < tests.len() && same_test(#[trigger] tests[j], test)
}

/// A run of managed tests with each test once: where a test occurs again,
/// its first occurrence stands and the later ones are dropped.
pub open spec fn first_tests(tests: Seq<TestManagementTestView>) -> Seq<TestManagementTestView>
    decreases tests.len(),
{
    if tests.len() == 0 {
        Seq::empty()
    } else {
        let before = first_tests(tests.drop_last());
        if has_test(before, tests.last()) {
            before
        } else {
            before.push(tests.last())
        }
    }
}

/// The managed tests that a run of records stands for: each test once, by
/// module and then by suite.
pub open spec fn managed_tests_of(records: Seq<TestPropertiesRecord>) -> Seq<
    GroupView<GroupView<TestManagementTestView>>,
> {
    let tests = first_tests(records.map_values(|r: TestPropertiesRecord| managed_test_of(r)));
    grouping(
        tests,
        tests.map_values(|t: TestManagementTestView| t.module_name),
        tests.map_values(|t: TestManagementTestView| t.suite_name),
    )
}

/// The managed tests that an answer stands for.
pub open spec fn managed_tests_of_reply(reply: Reply) -> Seq<
    GroupView<GroupView<TestManagementTestView>>,
> {
    match reply {
        Reply::TestManagementTests(Some(records)) => managed_tests_of(records@),
        _ => Seq::empty(),
    }
}

/// Reads the known tests from a run of records: the names of the tests, by
/// module and then by suite.
pub fn known_tests_from_records(records: &Vec<KnownTestRecord>) -> (groups: Vec<
    Group<Group<String>>,
>)
    ensures
        views(groups@) == known_tests_of(records@),
{
    let mut entries: Vec<Entry<String>> = Vec::new();
    let mut i: usize = 0;
    while i < records.len()
        invariant
            0 <= i <= records.len(),
            entries.len() == i,
            forall|j: int|
                0 <= j < i ==> (#[trigger] entries@[j]).outer@ == inbound_text(
                    records@[j].module_name,
                ) && entries@[j].inner@ == inbound_text(records@[j].suite_name)
                    && entries@[j].item@ == inbound_text(records@[j].test_name),
        decreases records.len() - i,
    {
        let record = &records[i];
        entries.push(
            Entry {
                outer: text_from_wire(&record.module_name),
                inner: text_from_wire(&record.suite_name),
                item: text_from_wire(&record.test_name),
            },
        );
        i = i + 1;
    }
    proof {
        assert(outer_names(entries@) =~= known_module_names(records@));
        assert(inner_names(entries@) =~= known_suite_names(records@));
        assert(items(entries@) =~= known_test_names(records@));
    }
    group(&entries)
}

/// Reads the known tests from the engine's answer.
pub fn known_tests(reply: &Reply) -> (groups: Vec<Group<Group<String>>>)
    ensures
        views(groups@) == known_tests_of_reply(*reply),
{
    match reply {
        Reply::KnownTests(Some(records)) => known_tests_from_records(records),
        _ => {
            let groups: Vec<Group<Group<String>>> = Vec::new();
            assert(views(groups@) =~= Seq::empty());
            groups
        },
    }
}

/// Reads the skippable tests from a run of records: the tests, by suite
/// and then by test name.
pub fn skippable_tests_from_records(records: &Vec<SkippableTestRecord>) -> (groups: Vec<
    Group<Group<SkippableTest>>,
>)
    ensures
        views(groups@) == skippable_tests_of(records@),
{
    let mut entries: Vec<Entry<SkippableTest>> = Vec::new();
    let mut i: usize = 0;
    while i < records.len()
        invariant
            0 <= i <= records.len(),
            entries.len() == i,
            forall|j: int|
                0 <= j < i ==> (#[trigger] entries@[j]).outer@ == inbound_text(
                    records@[j].suite_name,
                ) && entries@[j].inner@ == inbound_text(records@[j].test_name)
                    && entries@[j].item@ == skippable_test_of(records@[j]),
        decreases records.len() - i,
    {
        let record = &records[i];
        let suite_name = text_from_wire(&record.suite_name);
        let test_name = text_from_wire(&record.test_name);
        entries.push(
            Entry {
                outer: suite_name.clone(),
                inner: test_name.clone(),
                item: SkippableTest {
                    suite_name,
                    test_name,
                    parameters: text_from_wire(&record.parameters),
                    custom_configurations_json: text_from_wire(
                        &record.custom_configurations_json,
                    ),
                },
            },
        );
        i = i + 1;
    }
    proof {
        assert(outer_names(entries@) =~= records@.map_values(
            |r: SkippableTestRecord| inbound_text(r.suite_name),
        ));
        assert(inner_names(entries@) =~= records@.map_values(
            |r: SkippableTestRecord| inbound_text(r.test_name),
        ));
        assert(items(entries@) =~= records@.map_values(
            |r: SkippableTestRecord| skippable_test_of(r),
        ));
    }
    group(&entries)
}

/// Reads the skippable tests from the engine's answer.
pub fn skippable_tests(reply: &Reply) -> (groups: Vec<Group<Group<SkippableTest>>>)
    ensures
        views(groups@) == skippable_tests_of_reply(*reply),
{
    match reply {
        Reply::SkippableTests(Some(records)) => skippable_tests_from_records(records),
        _ => {
            let groups: Vec<Group<Group<SkippableTest>>> = Vec::new();
            assert(views(groups@) =~= Seq::empty());
            groups
        },
    }
}

/// Whether a test of this module, suite and name is among the entries.
fn holds_test(entries: &Vec<Entry<TestManagementTest>>, test: &TestManagementTest) -> (found: bool)
    ensures
        found == has_test(items(entries@), test@),
{
    let mut i: usize = 0;
    while i < entries.len()
        invariant
            0 <= i <= entries.len(),
            forall|j: int| 0 <= j < i ==> !same_test(#[trigger] items(entries@)[j], test@),
        decreases entries.len() - i,
    {
        let held = &entries[i].item;
        if held.module_name == test.module_name && held.suite_name == test.suite_name
            && held.test_name == test.test_name {
            assert(same_test(items(entries@)[i as int], test@));
            return true;
        }
        i = i + 1;
    }
    false
}

/// Reads the managed tests from a run of records: each test once, the first
/// record of a test standing for it, by module and then by suite.
pub fn test_management_tests_from_records(records: &Vec<TestPropertiesRecord>) -> (groups: Vec<
    Group<Group<TestManagementTest>>,
>)
    ensures
        views(groups@) == managed_tests_of(records@),
{
    let ghost all = records@.map_values(|r: TestPropertiesRecord| managed_test_of(r));
    let mut entries: Vec<Entry<TestManagementTest>> = Vec::new();
    let mut i: usize = 0;
    proof {
        assert(all.take(0).len() == 0);
        assert(items(entries@) =~= Seq::empty());
    }
    while i < records.len()
        invariant
            0 <= i <= records.len(),
            all == records@.map_values(|r: TestPropertiesRecord| managed_test_of(r)),
            items(entries@) == first_tests(all.take(i as int)),
            forall|j: int|
                0 <= j < entries.len() ==> (#[trigger] entries@[j]).outer@
                    == entries@[j].item@.module_name && entries@[j].inner@
                    == entries@[j].item@.suite_name,
        decreases records.len() - i,
    {
        proof {
            assert(all.take(i as int + 1).drop_last() == all.take(i as int));
            assert(all.take(i as int + 1).last() == managed_test_of(records@[i as int]));
        }
        let record = &records[i];
        let test = TestManagementTest {
            module_name: text_from_wire(&record.module_name),
            suite_name: text_from_wire(&record.suite_name),
            test_name: text_from_wire(&record.test_name),
            quarantined: bool_from_wire(record.quarantined),
            disabled: bool_from_wire(record.disabled),
            attempt_to_fix: bool_from_wire(record.attempt_to_fix),
        };
        if !holds_test(&entries, &test) {
            let ghost before = items(entries@);
            let entry = Entry {
                outer: test.module_name.clone(),
                inner: test.suite_name.clone(),
                item: test,
            };
            entries.push(entry);
            proof {
                assert(items(entries@) =~= before.push(entry.item@));
            }
        }
        i = i + 1;
    }
    proof {
        assert(all.take(i as int) == all);
        assert(outer_names(entries@) =~= items(entries@).map_values(
            |t: TestManagementTestView| t.module_name,
        ));
        assert(inner_names(entries@) =~= items(entries@).map_values(
            |t: TestManagementTestView| t.suite_name,
        ));
    }
    group(&entries)
}

/// Reads the managed tests from the engine's answer.
pub fn test_management_tests(reply: &Reply) -> (groups: Vec<Group<Group<TestManagementTest>>>)
    ensures
        views(groups@) == managed_tests_of_reply(*reply),
{
    match reply {
        Reply::TestManagementTests(Some(records)) => test_management_tests_from_records(records),
        _ => {
            let groups: Vec<Group<Group<TestManagementTest>>> = Vec::new();
            assert(views(groups@) =~= Seq::empty());
            groups
        },
    }
}

/// Each managed test is kept once: no two of the tests kept are the same
/// test, and a test is kept exactly when it occurs.
pub proof fn law_first_test_stands(tests: Seq<TestManagementTestView>, test: TestManagementTestView)
    ensures
        forall|i: int, j: int|
            0 <= i < j < first_tests(tests).len() ==> !same_test(
                #[trigger] first_tests(tests)[i],
                #[trigger] first_tests(tests)[j],
            ),
        has_test(first_tests(tests), test) <==> has_test(tests, test),
    decreases tests.len(),
{
    if tests.len() > 0 {
        let front = tests.drop_last();
        let before = first_tests(front);
        let all = first_tests(tests);
        law_first_test_stands(front, test);
        law_first_test_stands(front, tests.last());
        assert forall|i: int, j: int| 0 <= i < j < all.len() implies !same_test(
            #[trigger] all[i],
            #[trigger] all[j],
        ) by {
            if j < before.len() {
                assert(all[i] == before[i] && all[j] == before[j]);
            } else {
                assert(all[i] == before[i]);
                assert(all[j] == tests.last());
                assert(!has_test(before, tests.last()));
            }
        }
        if has_test(all, test) {
            let j = choose|j: int| 0 <= j < all.len() && same_test(#[trigger] all[j], test);
            if j < before.len() {
                assert(same_test(before[j], test));
                assert(has_test(before, test));
                let k = choose|k: int| 0 <= k < front.len() && same_test(#[trigger] front[k], test);
                assert(same_test(tests[k], test));
            } else {
                assert(same_test(tests[tests.len() - 1], test));
            }
        }
        if has_test(tests, test) {
            let k = choose|k: int| 0 <= k < tests.len() && same_test(#[trigger] tests[k], test);
            if k < front.len() {
                assert(same_test(front[k], test));
                assert(has_test(front, test));
                let j = choose|j: int| 0 <= j < before.len() && same_test(#[trigger] before[j], test);
                assert(same_test(all[j], test));
            } else if has_test(before, tests.last()) {
                let j = choose|j: int|
                    0 <= j < before.len() && same_test(#[trigger] before[j], tests.last());
                assert(same_test(all[j], test));
            } else {
                assert(same_test(all[before.len() as int], test));
            }
        }
    }
}

} // verus!
