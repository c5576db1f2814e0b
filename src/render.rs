use vstd::prelude::*;

use crate::coords::{PositionFull, PositionSpherical, PositionXYZ, RAzEl};
use crate::units::unit_name;

verus! {

impl RAzEl<String> {
    /// The one-line text rendering, each field given as rendered text.
    pub open spec fn text_view(&self) -> Seq<char> {
        "az: "@
            + self.az@
            + ", el: "@
            + self.el@
            + ", r: "@
            + self.r@
            + ", u: "@
            + unit_name(self.units)
    }

    /// The JSON object rendering, each field given as a JSON number.
    pub open spec fn json_view(&self) -> Seq<char> {
        "{\"az\":"@
            + self.az@
            + ",\"el\":"@
            + self.el@
            + ",\"r\":"@
            + self.r@
            + ",\"units\":\""@
            + unit_name(self.units)
            + "\"}"@
    }

    /// Renders the record as one line of text.
    pub fn to_string(&self) -> (r: String)
        ensures
            r@ == self.text_view(),
    {
        let mut s = String::from_str("az: ");
        s.append(self.az.as_str());
        s.append(", el: ");
        s.append(self.el.as_str());
        s.append(", r: ");
        s.append(self.r.as_str());
        s.append(", u: ");
        let u = self.units.to_string();
        s.append(u.as_str());
        assert(s@ =~= self.text_view());
        s
    }

    /// Renders the record as a JSON object.
    pub fn to_json(&self) -> (r: String)
        ensures
            r@ == self.json_view(),
    {
        let mut s = String::from_str("{\"az\":");
        s.append(self.az.as_str());
        s.append(",\"el\":");
        s.append(self.el.as_str());
        s.append(",\"r\":");
        s.append(self.r.as_str());
        s.append(",\"units\":\"");
        let u = self.units.to_string();
        s.append(u.as_str());
        s.append("\"}");
        assert(s@ =~= self.json_view());
        s
    }
}

impl PositionSpherical<String> {
    /// The one-line text rendering, each field given as rendered text.
    pub open spec fn text_view(&self) -> Seq<char> {
        "r: "@
            + self.r@
            + " km, lon: "@
            + self.lon@
            + ", lat: "@
            + self.lat@
            + ", u: "@
            + unit_name(self.units)
    }

    /// The JSON object rendering, each field given as a JSON number.
    pub open spec fn json_view(&self) -> Seq<char> {
        "{\"r\":"@
            + self.r@
            + ",\"lon\":"@
            + self.lon@
            + ",\"lat\":"@
            + self.lat@
            + ",\"units\":\""@
            + unit_name(self.units)
            + "\"}"@
    }

    /// Renders the record as one line of text.
    pub fn to_string(&self) -> (r: String)
        ensures
            r@ == self.text_view(),
    {
        let mut s = String::from_str("r: ");
        s.append(self.r.as_str());
        s.append(" km, lon: ");
        s.append(self.lon.as_str());
        s.append(", lat: ");
        s.append(self.lat.as_str());
        s.append(", u: ");
        let u = self.units.to_string();
        s.append(u.as_str());
        assert(s@ =~= self.text_view());
        s
    }

    /// Renders the record as a JSON object.
    pub fn to_json(&self) -> (r: String)
        ensures
            r@ == self.json_view(),
    {
        let mut s = String::from_str("{\"r\":");
        s.append(self.r.as_str());
        s.append(",\"lon\":");
        s.append(self.lon.as_str());
        s.append(",\"lat\":");
        s.append(self.lat.as_str());
        s.append(",\"units\":\"");
        let u = self.units.to_string();
        s.append(u.as_str());
        s.append("\"}");
        assert(s@ =~= self.json_view());
        s
    }
}

impl PositionFull<String> {
    /// The one-line text rendering, each field given as rendered text.
    pub open spec fn text_view(&self) -> Seq<char> {
        "x: "@
            + self.x@
            + " km, y: "@
            + self.y@
            + " km, z: "@
            + self.z@
            + " km, r: "@
            + self.r@
            + " km, lon: "@
            + self.lon@
            + ", lat: "@
            + self.lat@
            + ", u: "@
            + unit_name(self.units)
    }

    /// The JSON object rendering, each field given as a JSON number.
    pub open spec fn json_view(&self) -> Seq<char> {
        "{\"x\":"@
            + self.x@
            + ",\"y\":"@
            + self.y@
            + ",\"z\":"@
            + self.z@
            + ",\"r\":"@
            + self.r@
            + ",\"lon\":"@
            + self.lon@
            + ",\"lat\":"@
            + self.lat@
            + ",\"units\":\""@
            + unit_name(self.units)
            + "\"}"@
    }

    /// Renders the record as one line of text.
    pub fn to_string(&self) -> (r: String)
        ensures
            r@ == self.text_view(),
    {
        let mut s = String::from_str("x: ");
        s.append(self.x.as_str());
        s.append(" km, y: ");
        s.append(self.y.as_str());
        s.append(" km, z: ");
        s.append(self.z.as_str());
        s.append(" km, r: ");
        s.append(self.r.as_str());
        s.append(" km, lon: ");
        s.append(self.lon.as_str());
        s.append(", lat: ");
        s.append(self.lat.as_str());
        s.append(", u: ");
        let u = self.units.to_string();
        s.append(u.as_str());
        assert(s@ =~= self.text_view());
        s
    }

    /// Renders the record as a JSON object.
    pub fn to_json(&self) -> (r: String)
        ensures
            r@ == self.json_view(),
    {
        let mut s = String::from_str("{\"x\":");
        s.append(self.x.as_str());
        s.append(",\"y\":");
        s.append(self.y.as_str());
        s.append(",\"z\":");
        s.append(self.z.as_str());
        s.append(",\"r\":");
        s.append(self.r.as_str());
        s.append(",\"lon\":");
        s.append(self.lon.as_str());
        s.append(",\"lat\":");
        s.append(self.lat.as_str());
        s.append(",\"units\":\"");
        let u = self.units.to_string();
        s.append(u.as_str());
        s.append("\"}");
        assert(s@ =~= self.json_view());
        s
    }
}

impl PositionXYZ<String> {
    /// The one-line text rendering, each field given as rendered text.
    pub open spec fn text_view(&self) -> Seq<char> {
        "x: "@
            + self.x@
            + " km, y: "@
            + self.y@
            + " km, z: "@
            + self.z@
            + " km"@
    }

    /// The JSON object rendering, each field given as a JSON number.
    pub open spec fn json_view(&self) -> Seq<char> {
        "{\"x\":"@
            + self.x@
            + ",\"y\":"@
            + self.y@
            + ",\"z\":"@
            + self.z@
            + "}"@
    }

    /// Renders the record as one line of text.
    pub fn to_string(&self) -> (r: String)
        ensures
            r@ == self.text_view(),
    {
        let mut s = String::from_str("x: ");
        s.append(self.x.as_str());
        s.append(" km, y: ");
        s.append(self.y.as_str());
        s.append(" km, z: ");
        s.append(self.z.as_str());
        s.append(" km");
        assert(s@ =~= self.text_view());
        s
    }

    /// Renders the record as a JSON object.
    pub fn to_json(&self) -> (r: String)
        ensures
            r@ == self.json_view(),
    {
        let mut s = String::from_str("{\"x\":");
        s.append(self.x.as_str());
        s.append(",\"y\":");
        s.append(self.y.as_str());
        s.append(",\"z\":");
        s.append(self.z.as_str());
        s.append("}");
        assert(s@ =~= self.json_view());
        s
    }
}

} // verus!
